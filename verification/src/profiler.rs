use vstd::prelude::*;

use crate::collector::Collector;
use crate::error::Error;
use crate::frames::clipped;
use crate::frames::UnresolvedFrames;
use crate::MAX_DEPTH;
use crate::MAX_THREAD_NAME;

verus! {

// ---------------------------------------------------------------------------
// The control model: how `start` and `stop` move the running flag.
// A control call is written as a `bool`: `true` is `start`, `false` is
// `stop`.
// ---------------------------------------------------------------------------

/// Whether a control call is accepted in a state: `start` only while idle,
/// `stop` only while running.
pub open spec fn control_accepted(running: bool, is_start: bool) -> bool {
    is_start == !running
}

/// The running flag after a control call: an accepted call moves the flag to
/// the kind of the call, a rejected one leaves it alone.
pub open spec fn control_step(running: bool, is_start: bool) -> bool {
    if control_accepted(running, is_start) {
        is_start
    } else {
        running
    }
}

/// The running flag after a whole sequence of control calls.
pub open spec fn run_controls(running: bool, ops: Seq<bool>) -> bool
    decreases ops.len(),
{
    if ops.len() == 0 {
        running
    } else {
        control_step(run_controls(running, ops.drop_last()), ops.last())
    }
}

/// The running flag just before the call at position `n`.
pub open spec fn running_before(running0: bool, ops: Seq<bool>, n: int) -> bool {
    run_controls(running0, ops.take(n))
}

/// The counter after one successful submission.
pub open spec fn submission_counter(counter: int) -> int {
    counter + 1
}

/// The counter after `n` successful submissions into a freshly started
/// session.
pub open spec fn counter_after_submissions(n: nat) -> int
    decreases n,
{
    if n == 0 {
        0
    } else {
        submission_counter(counter_after_submissions((n - 1) as nat))
    }
}

/// The (running, counter) pair a successful guard build leaves behind; a
/// rejected build leaves the state alone.
pub open spec fn state_after_build(s: (bool, int)) -> (bool, int) {
    if s.0 {
        s
    } else {
        (true, 0)
    }
}

/// The (running, counter) pair a guard release leaves behind.
pub open spec fn state_after_release(s: (bool, int)) -> (bool, int) {
    if s.0 {
        (false, 0)
    } else {
        s
    }
}

/// The (running, counter) pair after `n` build/release cycles.
pub open spec fn state_after_cycles(s: (bool, int), n: nat) -> (bool, int)
    decreases n,
{
    if n == 0 {
        s
    } else {
        state_after_release(state_after_build(state_after_cycles(s, (n - 1) as nat)))
    }
}

// ---------------------------------------------------------------------------
// The profiler state itself.
// ---------------------------------------------------------------------------

/// The profiler state: the running flag, the diagnostic sample counter, the
/// address ranges excluded from later attribution, and the aggregation sink.
pub struct Profiler {
    pub data: Collector,
    pub sample_counter: i64,
    pub running: bool,
    pub blocklist_segments: Vec<(usize, usize)>,
}

/// Whether `addr` falls strictly inside one of the blocklisted ranges.
pub open spec fn spec_blocklisted(ranges: Seq<(usize, usize)>, addr: usize) -> bool {
    exists|i: int|
        0 <= i < ranges.len() && addr > (#[trigger] ranges[i]).0 && addr < ranges[i].1
}

impl Profiler {
    /// Everything the profiler ever recorded respects the buffer bounds.
    pub open spec fn wf(self) -> bool {
        self.data.wf()
    }

    /// A fresh, idle profiler. Creation never fails here; the `Result`
    /// mirrors that the embedder treats a failed creation as
    /// `Error::CreatingError`.
    pub fn new() -> (r: Result<Profiler, Error>)
        ensures
            r is Ok,
            !r->Ok_0.running,
            r->Ok_0.sample_counter == 0,
            r->Ok_0.data.entries@ == Seq::<(UnresolvedFrames, u32)>::empty(),
            r->Ok_0.blocklist_segments@ == Seq::<(usize, usize)>::empty(),
            r->Ok_0.wf(),
    {
        let data = match Collector::new() {
            Ok(data) => data,
            Err(err) => {
                return Err(err);
            },
        };
        Ok(Profiler { data, sample_counter: 0, running: false, blocklist_segments: Vec::new() })
    }

    /// Whether `addr` lies strictly inside a blocklisted address range.
    pub fn is_blocklisted(&self, addr: usize) -> (r: bool)
        ensures
            r == spec_blocklisted(self.blocklist_segments@, addr),
    {
        let n = self.blocklist_segments.len();
        let mut i: usize = 0;
        while i < n
            invariant
                n == self.blocklist_segments@.len(),
                0 <= i <= n,
                forall|k: int|
                    0 <= k < i ==> !(addr > (#[trigger] self.blocklist_segments@[k]).0
                        && addr < self.blocklist_segments@[k].1),
            decreases n - i,
        {
            let range = self.blocklist_segments[i];
            if addr > range.0 && addr < range.1 {
                return true;
            }
            i = i + 1;
        }
        false
    }

    /// Replace the blocklist. Done at guard-build time, before the session
    /// starts; the ranges then stay fixed for the guard's lifetime.
    pub fn set_blocklist(&mut self, segments: Vec<(usize, usize)>)
        ensures
            final(self).blocklist_segments == segments,
            final(self).data == old(self).data,
            final(self).sample_counter == old(self).sample_counter,
            final(self).running == old(self).running,
            old(self).wf() ==> final(self).wf(),
    {
        self.blocklist_segments = segments;
    }

    /// Move from idle to running. Rejected with `Error::Running`, and the
    /// state left untouched, if a session is already running; on success the
    /// sample counter starts over at 0.
    pub fn start(&mut self) -> (r: Result<(), Error>)
        ensures
            r is Ok <==> control_accepted(old(self).running, true),
            final(self).running == control_step(old(self).running, true),
            old(self).running ==> r == Err::<(), Error>(Error::Running) && *final(self) == *old(
                self,
            ),
            !old(self).running ==> r is Ok && final(self).running && final(self).sample_counter
                == 0 && final(self).data == old(self).data && final(self).blocklist_segments == old(
                self,
            ).blocklist_segments,
            (final(self).running, final(self).sample_counter as int) == state_after_build(
                (old(self).running, old(self).sample_counter as int),
            ),
            old(self).wf() ==> final(self).wf(),
    {
        if self.running {
            Err(Error::Running)
        } else {
            self.sample_counter = 0;
            self.running = true;
            Ok(())
        }
    }

    /// Reset to a fresh idle state: counter zero, a fresh sink, not running.
    /// The blocklist is left alone.
    fn init(&mut self) -> (r: Result<(), Error>)
        ensures
            r is Ok,
            !final(self).running,
            final(self).sample_counter == 0,
            final(self).data.entries@ == Seq::<(UnresolvedFrames, u32)>::empty(),
            final(self).blocklist_segments == old(self).blocklist_segments,
            final(self).wf(),
    {
        self.sample_counter = 0;
        let data = match Collector::new() {
            Ok(data) => data,
            Err(err) => {
                return Err(err);
            },
        };
        self.data = data;
        self.running = false;
        Ok(())
    }

    /// Move from running to idle. Rejected with `Error::NotRunning`, and the
    /// state left untouched, while idle; on success the counter is reset and
    /// the recorded samples are discarded.
    pub fn stop(&mut self) -> (r: Result<(), Error>)
        ensures
            r is Ok <==> control_accepted(old(self).running, false),
            final(self).running == control_step(old(self).running, false),
            !old(self).running ==> r == Err::<(), Error>(Error::NotRunning) && *final(self) == *old(
                self,
            ),
            old(self).running ==> r is Ok && !final(self).running && final(self).sample_counter
                == 0 && final(self).data.entries@ == Seq::<(UnresolvedFrames, u32)>::empty()
                && final(self).blocklist_segments == old(self).blocklist_segments,
            (final(self).running, final(self).sample_counter as int) == state_after_release(
                (old(self).running, old(self).sample_counter as int),
            ),
            old(self).wf() ==> final(self).wf(),
    {
        if self.running {
            self.init()
        } else {
            Err(Error::NotRunning)
        }
    }

    /// Record one captured stack: clip it to the buffer bounds, count it, and
    /// hand it to the aggregation sink.
    ///
    /// This is the hot path a restricted execution context reaches; the
    /// embedder takes the surrounding lock with a non-blocking attempt and
    /// drops the sample on contention rather than ever calling this while
    /// blocked.
    pub fn sample(&mut self, backtrace: Vec<u64>, thread_name: &[u8], thread_id: u64, timestamp: u64)
        requires
            old(self).sample_counter < i64::MAX,
        ensures
            final(self).sample_counter == submission_counter(old(self).sample_counter as int),
            final(self).running == old(self).running,
            final(self).blocklist_segments == old(self).blocklist_segments,
            final(self).data.entries@.len() == old(self).data.entries@.len() + 1,
            final(self).data.entries@.take(old(self).data.entries@.len() as int) == old(
                self,
            ).data.entries@,
            ({
                let entry = final(self).data.entries@.last();
                &&& entry.1 == 1u32
                &&& entry.0.frames@ == clipped(backtrace@, MAX_DEPTH as int)
                &&& entry.0.thread_name@ == clipped(thread_name@, MAX_THREAD_NAME as int)
                &&& entry.0.thread_id == thread_id
                &&& entry.0.timestamp == timestamp
            }),
            old(self).wf() ==> final(self).wf(),
    {
        let frames = UnresolvedFrames::new(backtrace, thread_name, thread_id, timestamp);
        self.sample_counter = self.sample_counter + 1;
        match self.data.add(frames, 1) {
            Ok(()) => {},
            Err(_) => {},
        }
        proof {
            assert(self.data.entries@.take(old(self).data.entries@.len() as int) =~= old(
                self,
            ).data.entries@);
        }
    }
}

// ---------------------------------------------------------------------------
// Laws of the control model.
// ---------------------------------------------------------------------------

/// A rejected control call leaves the running flag unchanged.
pub proof fn lemma_rejected_call_keeps_state(running: bool, is_start: bool)
    requires
        !control_accepted(running, is_start),
    ensures
        control_step(running, is_start) == running,
{
}

/// Splitting a control sequence one call before position `n`: the flag before
/// call `n` is the flag before call `n - 1` moved by that call.
proof fn lemma_running_before_unfold(running0: bool, ops: Seq<bool>, n: int)
    requires
        0 < n <= ops.len(),
    ensures
        running_before(running0, ops, n) == control_step(
            running_before(running0, ops, n - 1),
            ops[n - 1],
        ),
{
    assert(ops.take(n).drop_last() =~= ops.take(n - 1));
    assert(ops.take(n).last() == ops[n - 1]);
}

/// A stretch of rejected calls leaves the running flag where it was.
proof fn lemma_rejected_stretch_keeps_state(running0: bool, ops: Seq<bool>, i: int, j: int)
    requires
        0 <= i <= j <= ops.len(),
        forall|k: int|
            i <= k < j ==> !control_accepted(running_before(running0, ops, k), ops[k]),
    ensures
        running_before(running0, ops, j) == running_before(running0, ops, i),
    decreases j - i,
{
    if i < j {
        lemma_rejected_stretch_keeps_state(running0, ops, i, j - 1);
        lemma_running_before_unfold(running0, ops, j);
    }
}

/// In any sequence of `start`/`stop` calls, the accepted calls alternate:
/// two accepted calls with only rejected calls between them are of opposite
/// kinds, so the running flag alternates and a call that disagrees with the
/// current state is rejected and changes nothing.
pub proof fn lemma_accepted_calls_alternate(running0: bool, ops: Seq<bool>, i: int, j: int)
    requires
        0 <= i < j < ops.len(),
        control_accepted(running_before(running0, ops, i), ops[i]),
        control_accepted(running_before(running0, ops, j), ops[j]),
        forall|k: int|
            i < k < j ==> !control_accepted(running_before(running0, ops, k), ops[k]),
    ensures
        ops[j] == !ops[i],
{
    lemma_running_before_unfold(running0, ops, i + 1);
    assert(running_before(running0, ops, i + 1) == ops[i]);
    lemma_rejected_stretch_keeps_state(running0, ops, i + 1, j);
    assert(running_before(running0, ops, j) == ops[i]);
}

/// Every frame buffer the profiler has submitted to the sink respects the
/// capture bounds: at most `MAX_DEPTH` frames and at most `MAX_THREAD_NAME`
/// name bytes.
pub proof fn lemma_submitted_buffers_bounded(p: Profiler)
    requires
        p.wf(),
    ensures
        forall|i: int|
            0 <= i < p.data.entries@.len() ==> (#[trigger] p.data.entries@[i]).0.frames@.len()
                <= MAX_DEPTH && p.data.entries@[i].0.thread_name@.len() <= MAX_THREAD_NAME,
{
}

/// After a successful `start` the counter is 0, and each successful
/// submission raises it by exactly one: after `n` submissions it is exactly
/// `n`, never more.
pub proof fn lemma_counter_counts_submissions(n: nat)
    ensures
        counter_after_submissions(n) == n,
    decreases n,
{
    if n > 0 {
        lemma_counter_counts_submissions((n - 1) as nat);
    }
}

/// Any number of guard build/release cycles from an idle state ends idle with
/// the sample counter reset to 0.
pub proof fn lemma_guard_cycles_reset(s0: (bool, int), n: nat)
    requires
        !s0.0,
        n > 0,
    ensures
        state_after_cycles(s0, n) == (false, 0int),
    decreases n,
{
    if n > 1 {
        lemma_guard_cycles_reset(s0, (n - 1) as nat);
    }
}

} // verus!
