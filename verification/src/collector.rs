use vstd::prelude::*;

use crate::error::Error;
use crate::frames::UnresolvedFrames;

verus! {

/// The aggregation sink the profiler submits finished samples to.
///
/// Merging samples with equal stack signatures into weighted counts is the
/// aggregator's own affair; the profiler core only depends on `add`
/// accepting one sample and its weight, so this collector records the
/// submissions in order.
pub struct Collector {
    pub entries: Vec<(UnresolvedFrames, u32)>,
}

impl Collector {
    /// Every recorded sample respects the frame and name bounds.
    pub open spec fn wf(self) -> bool {
        forall|i: int| 0 <= i < self.entries@.len() ==> (#[trigger] self.entries@[i]).0.wf()
    }

    pub fn new() -> (r: Result<Collector, Error>)
        ensures
            r is Ok,
            r->Ok_0.entries@ == Seq::<(UnresolvedFrames, u32)>::empty(),
            r->Ok_0.wf(),
    {
        Ok(Collector { entries: Vec::new() })
    }

    /// Record one sample with its weight. Never fails.
    pub fn add(&mut self, frames: UnresolvedFrames, weight: u32) -> (r: Result<(), Error>)
        ensures
            r is Ok,
            final(self).entries@ == old(self).entries@.push((frames, weight)),
            old(self).wf() && frames.wf() ==> final(self).wf(),
    {
        self.entries.push((frames, weight));
        Ok(())
    }

    /// How many submissions have been recorded.
    pub fn len(&self) -> (r: usize)
        ensures
            r == self.entries@.len(),
    {
        self.entries.len()
    }

    /// Read one recorded submission back.
    pub fn get(&self, i: usize) -> (r: &(UnresolvedFrames, u32))
        requires
            i < self.entries@.len(),
        ensures
            *r == self.entries@[i as int],
    {
        &self.entries[i]
    }
}

} // verus!
