use vstd::prelude::*;

use crate::error::Error;
use crate::frames::clipped;
use crate::profiler::submission_counter;
use crate::profiler::Profiler;
use crate::MAX_DEPTH;
use crate::MAX_THREAD_NAME;

verus! {

// ---------------------------------------------------------------------------
// Worker lifecycle.
// ---------------------------------------------------------------------------

/// What the embedder has to do after a backend control call: spawn the one
/// worker thread, join the finished worker, or nothing.
#[derive(Clone, Copy, Debug, PartialEq, Eq, Structural)]
pub enum BackendAction {
    SpawnWorker,
    JoinWorker,
    NoAction,
}

/// The control state of the suspend-and-walk backend: the process-wide
/// termination flag the worker polls, and whether a worker is installed.
pub struct WorkerState {
    pub terminated: bool,
    pub active: bool,
}

impl WorkerState {
    /// Before the backend is ever started: no worker, no termination request.
    pub fn new() -> (r: WorkerState)
        ensures
            !r.terminated,
            !r.active,
    {
        WorkerState { terminated: false, active: false }
    }
}

/// Install the backend: clear the termination flag and, unless one is already
/// installed, ask the embedder to spawn the single worker thread.
pub fn register(w: &mut WorkerState) -> (r: Result<BackendAction, Error>)
    ensures
        r is Ok,
        !final(w).terminated,
        final(w).active,
        old(w).active ==> r == Ok::<BackendAction, Error>(BackendAction::NoAction),
        !old(w).active ==> r == Ok::<BackendAction, Error>(BackendAction::SpawnWorker),
{
    w.terminated = false;
    if w.active {
        Ok(BackendAction::NoAction)
    } else {
        w.active = true;
        Ok(BackendAction::SpawnWorker)
    }
}

/// Tear the backend down: raise the termination flag and, if a worker is
/// installed, ask the embedder to join it. Cooperative only: the worker exits
/// its loop when it observes the flag, and is never terminated by force.
pub fn unregister(w: &mut WorkerState) -> (r: Result<BackendAction, Error>)
    ensures
        r is Ok,
        final(w).terminated,
        !final(w).active,
        old(w).active ==> r == Ok::<BackendAction, Error>(BackendAction::JoinWorker),
        !old(w).active ==> r == Ok::<BackendAction, Error>(BackendAction::NoAction),
{
    w.terminated = true;
    if w.active {
        w.active = false;
        Ok(BackendAction::JoinWorker)
    } else {
        Ok(BackendAction::NoAction)
    }
}

// ---------------------------------------------------------------------------
// Thread selection.
// ---------------------------------------------------------------------------

/// One row of an OS thread enumeration snapshot: which process the thread
/// belongs to, and its id. Enumeration on some platforms is system-wide, so
/// the owner is kept and filtered on defensively.
pub struct ThreadEntry {
    pub owner_process_id: u32,
    pub thread_id: u32,
}

/// The ids, in snapshot order, of the entries owned by process `pid`.
pub open spec fn ids_of_process(entries: Seq<ThreadEntry>, pid: u32) -> Seq<u32>
    decreases entries.len(),
{
    if entries.len() == 0 {
        Seq::empty()
    } else {
        ids_of_process(entries.drop_last(), pid) + if entries.last().owner_process_id == pid {
            seq![entries.last().thread_id]
        } else {
            Seq::empty()
        }
    }
}

/// Keep, in order, the ids of the snapshot entries that belong to this
/// process.
pub fn process_thread_ids(entries: &Vec<ThreadEntry>, pid: u32) -> (r: Vec<u32>)
    ensures
        r@ == ids_of_process(entries@, pid),
{
    let n = entries.len();
    let mut out: Vec<u32> = Vec::new();
    let mut i: usize = 0;
    while i < n
        invariant
            n == entries@.len(),
            0 <= i <= n,
            out@ == ids_of_process(entries@.take(i as int), pid),
        decreases n - i,
    {
        proof {
            assert(entries@.take(i + 1).drop_last() =~= entries@.take(i as int));
            assert(entries@.take(i + 1).last() == entries@[i as int]);
        }
        if entries[i].owner_process_id == pid {
            out.push(entries[i].thread_id);
        }
        proof {
            assert(out@ =~= ids_of_process(entries@.take(i + 1), pid));
        }
        i = i + 1;
    }
    proof {
        assert(entries@.take(n as int) =~= entries@);
    }
    out
}

/// The ids left once the worker's own id is taken out.
pub open spec fn excluding(ids: Seq<u32>, worker_id: u32) -> Seq<u32>
    decreases ids.len(),
{
    if ids.len() == 0 {
        Seq::empty()
    } else {
        excluding(ids.drop_last(), worker_id) + if ids.last() == worker_id {
            Seq::empty()
        } else {
            seq![ids.last()]
        }
    }
}

/// No id the exclusion leaves behind is the worker's own.
pub proof fn lemma_excluding_excludes(ids: Seq<u32>, worker_id: u32)
    ensures
        forall|k: int|
            0 <= k < excluding(ids, worker_id).len() ==> excluding(ids, worker_id)[k] != worker_id,
    decreases ids.len(),
{
    if ids.len() > 0 {
        lemma_excluding_excludes(ids.drop_last(), worker_id);
        let prev = excluding(ids.drop_last(), worker_id);
        let cur = excluding(ids, worker_id);
        assert forall|k: int| 0 <= k < cur.len() implies cur[k] != worker_id by {
            if k < prev.len() {
                assert(cur[k] == prev[k]);
            } else {
                assert(ids.last() != worker_id);
            }
        }
    }
}

/// The threads one capture pass targets: every enumerated thread except the
/// worker itself, in enumeration order. The worker never suspends its own
/// thread.
pub fn capture_targets(ids: &Vec<u32>, worker_id: u32) -> (r: Vec<u32>)
    ensures
        r@ == excluding(ids@, worker_id),
        forall|k: int| 0 <= k < r@.len() ==> r@[k] != worker_id,
{
    let n = ids.len();
    let mut out: Vec<u32> = Vec::new();
    let mut i: usize = 0;
    while i < n
        invariant
            n == ids@.len(),
            0 <= i <= n,
            out@ == excluding(ids@.take(i as int), worker_id),
        decreases n - i,
    {
        proof {
            assert(ids@.take(i + 1).drop_last() =~= ids@.take(i as int));
            assert(ids@.take(i + 1).last() == ids@[i as int]);
        }
        if ids[i] != worker_id {
            out.push(ids[i]);
        }
        proof {
            assert(out@ =~= excluding(ids@.take(i + 1), worker_id));
        }
        i = i + 1;
    }
    proof {
        assert(ids@.take(n as int) =~= ids@);
        lemma_excluding_excludes(ids@, worker_id);
    }
    out
}

// ---------------------------------------------------------------------------
// Thread labels.
// ---------------------------------------------------------------------------

/// One lowercase hexadecimal digit, as its ASCII byte.
pub open spec fn hex_digit(d: int) -> u8
    recommends
        0 <= d < 16,
{
    if d < 10 {
        (48 + d) as u8
    } else {
        (87 + d) as u8
    }
}

/// `n` written in lowercase hexadecimal, most significant digit first, with
/// no leading zeros and no `0x` prefix; zero is written as one `0` digit.
pub open spec fn hex_bytes(n: nat) -> Seq<u8>
    decreases n,
{
    if n < 16 {
        seq![hex_digit(n as int)]
    } else {
        hex_bytes(n / 16).push(hex_digit((n % 16) as int))
    }
}

/// Every byte of a hexadecimal label is a lowercase digit, the label is never
/// empty, and only zero starts with a `0`.
pub proof fn lemma_hex_bytes_lowercase(n: nat)
    ensures
        hex_bytes(n).len() >= 1,
        forall|i: int|
            0 <= i < hex_bytes(n).len() ==> (48 <= #[trigger] hex_bytes(n)[i] <= 57 || 97
                <= hex_bytes(n)[i] <= 102),
        n > 0 ==> hex_bytes(n)[0] != 48,
    decreases n,
{
    if n >= 16 {
        lemma_hex_bytes_lowercase(n / 16);
    }
}

/// `16^k`, for the digit-count bound below.
pub open spec fn pow16(k: nat) -> nat
    decreases k,
{
    if k == 0 {
        1
    } else {
        16 * pow16((k - 1) as nat)
    }
}

/// At most `k` hexadecimal digits are needed below `16^k`.
proof fn lemma_hex_bytes_len(n: nat, k: nat)
    requires
        k >= 1,
        n < pow16(k),
    ensures
        hex_bytes(n).len() <= k,
    decreases k,
{
    if n >= 16 {
        assert(pow16(1) == 16) by {
            reveal_with_fuel(pow16, 2);
        }
        assert(k >= 2);
        lemma_hex_bytes_len(n / 16, (k - 1) as nat);
    }
}

fn hex_digit_of(d: u32) -> (r: u8)
    requires
        d < 16,
    ensures
        r == hex_digit(d as int),
{
    if d < 10 {
        (48 + d) as u8
    } else {
        (87 + d) as u8
    }
}

/// Append the hexadecimal digits of `n` to `out`, most significant first.
fn push_hex_bytes(n: u32, out: &mut Vec<u8>)
    ensures
        final(out)@ == old(out)@ + hex_bytes(n as nat),
    decreases n,
{
    if n < 16 {
        out.push(hex_digit_of(n));
        proof {
            assert(out@ =~= old(out)@ + hex_bytes(n as nat));
        }
    } else {
        push_hex_bytes(n / 16, out);
        out.push(hex_digit_of(n % 16));
        proof {
            assert(out@ =~= old(out)@ + hex_bytes(n as nat));
        }
    }
}

/// The label `"main"`, as bytes.
pub open spec fn main_label() -> Seq<u8> {
    seq![109u8, 97u8, 105u8, 110u8]
}

/// The label a captured thread is reported under: the thread that initiated
/// profiling is `"main"`; every other thread is its lowercase hexadecimal id.
pub open spec fn label_of(id: u32, main_thread_id: u32) -> Seq<u8> {
    if id == main_thread_id {
        main_label()
    } else {
        hex_bytes(id as nat)
    }
}

/// A label never exceeds the thread-name bound: `"main"` has 4 bytes and a
/// 32-bit id has at most 8 hexadecimal digits.
pub proof fn lemma_label_fits(id: u32, main_thread_id: u32)
    ensures
        label_of(id, main_thread_id).len() <= MAX_THREAD_NAME,
{
    if id != main_thread_id {
        assert(pow16(8) == 0x100000000) by {
            reveal_with_fuel(pow16, 9);
        }
        lemma_hex_bytes_len(id as nat, 8);
    }
}

/// Build the label for one captured thread.
pub fn thread_label(id: u32, main_thread_id: u32) -> (r: Vec<u8>)
    ensures
        r@ == label_of(id, main_thread_id),
{
    let mut out: Vec<u8> = Vec::new();
    if id == main_thread_id {
        // "main" in ASCII.
        out.push(109);
        out.push(97);
        out.push(105);
        out.push(110);
        proof {
            assert(out@ =~= main_label());
        }
    } else {
        push_hex_bytes(id, &mut out);
        proof {
            assert(out@ =~= hex_bytes(id as nat));
        }
    }
    out
}

// ---------------------------------------------------------------------------
// Submission of one capture.
// ---------------------------------------------------------------------------

/// Submit one captured stack: label the thread and record the sample with
/// weight 1. The per-pass protocol around this call is the embedder's: it
/// takes the profiler lock with a non-blocking attempt and skips the whole
/// pass on contention.
pub fn submit_capture(
    p: &mut Profiler,
    frames: Vec<u64>,
    thread_id: u32,
    main_thread_id: u32,
    timestamp: u64,
)
    requires
        old(p).sample_counter < i64::MAX,
    ensures
        final(p).sample_counter == submission_counter(old(p).sample_counter as int),
        final(p).running == old(p).running,
        final(p).blocklist_segments == old(p).blocklist_segments,
        final(p).data.entries@.len() == old(p).data.entries@.len() + 1,
        final(p).data.entries@.take(old(p).data.entries@.len() as int) == old(p).data.entries@,
        ({
            let entry = final(p).data.entries@.last();
            &&& entry.1 == 1u32
            &&& entry.0.frames@ == clipped(frames@, MAX_DEPTH as int)
            &&& entry.0.thread_name@ == label_of(thread_id, main_thread_id)
            &&& entry.0.thread_id == thread_id as u64
            &&& entry.0.timestamp == timestamp
        }),
        old(p).wf() ==> final(p).wf(),
{
    let name = thread_label(thread_id, main_thread_id);
    proof {
        lemma_label_fits(thread_id, main_thread_id);
    }
    p.sample(frames, name.as_slice(), thread_id as u64, timestamp);
}

} // verus!
