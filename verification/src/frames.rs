use vstd::prelude::*;

use crate::MAX_DEPTH;
use crate::MAX_THREAD_NAME;

verus! {

/// `s` cut down to its first `max` elements where it is longer.
pub open spec fn clipped<T>(s: Seq<T>, max: int) -> Seq<T> {
    if s.len() <= max {
        s
    } else {
        s.take(max)
    }
}

/// One captured stack: the raw frame addresses, innermost first, plus the
/// identity of the thread it was taken from and the capture time.
///
/// A buffer never holds more than `MAX_DEPTH` frames nor more than
/// `MAX_THREAD_NAME` name bytes; `new` clips both.
pub struct UnresolvedFrames {
    pub frames: Vec<u64>,
    pub thread_name: Vec<u8>,
    pub thread_id: u64,
    pub timestamp: u64,
}

impl UnresolvedFrames {
    /// The bounds every buffer built by `new` satisfies.
    pub open spec fn wf(self) -> bool {
        &&& self.frames@.len() <= MAX_DEPTH
        &&& self.thread_name@.len() <= MAX_THREAD_NAME
    }

    pub fn new(frames: Vec<u64>, thread_name: &[u8], thread_id: u64, timestamp: u64) -> (r: Self)
        ensures
            r.frames@ == clipped(frames@, MAX_DEPTH as int),
            r.thread_name@ == clipped(thread_name@, MAX_THREAD_NAME as int),
            r.thread_id == thread_id,
            r.timestamp == timestamp,
            r.wf(),
    {
        let mut kept = frames;
        kept.truncate(MAX_DEPTH);
        let mut name = vstd::slice::slice_to_vec(thread_name);
        name.truncate(MAX_THREAD_NAME);
        proof {
            assert(kept@ =~= clipped(frames@, MAX_DEPTH as int));
            assert(name@ =~= clipped(thread_name@, MAX_THREAD_NAME as int));
        }
        UnresolvedFrames { frames: kept, thread_name: name, thread_id, timestamp }
    }
}

} // verus!
