use vstd::prelude::*;

use crate::blocklist::fragment_views;
use crate::blocklist::loaded_libraries;
use crate::blocklist::resolve_blocklist;
use crate::blocklist::resolved_blocklist;
use crate::blocklist::LibraryInfo;
use crate::error::Error;
use crate::frames::UnresolvedFrames;
use crate::profiler::state_after_build;
use crate::profiler::state_after_release;
use crate::profiler::Profiler;

verus! {

/// The handle to the periodic tick source. Arming and disarming the real
/// tick delivery is the embedder's; the core only fixes the requested
/// frequency for the session.
pub struct Timer {
    pub frequency: i32,
}

impl Timer {
    pub fn new(frequency: i32) -> (r: Timer)
        ensures
            r.frequency == frequency,
    {
        Timer { frequency }
    }
}

/// Configuration of a profiling session: the requested sampling frequency and
/// the address ranges to exclude from later attribution.
#[derive(Clone)]
pub struct ProfilerGuardBuilder {
    pub frequency: i32,
    pub blocklist_segments: Vec<(usize, usize)>,
}

impl ProfilerGuardBuilder {
    /// 99 samples per second and an empty blocklist.
    pub fn default() -> (r: ProfilerGuardBuilder)
        ensures
            r.frequency == 99,
            r.blocklist_segments@ == Seq::<(usize, usize)>::empty(),
    {
        ProfilerGuardBuilder { frequency: 99, blocklist_segments: Vec::new() }
    }

    /// Request a sampling frequency, in samples per second.
    pub fn frequency(self, frequency: i32) -> (r: ProfilerGuardBuilder)
        ensures
            r.frequency == frequency,
            r.blocklist_segments == self.blocklist_segments,
    {
        ProfilerGuardBuilder { frequency, ..self }
    }

    /// Resolve a list of library-name fragments against the shared libraries
    /// loaded in this process right now, and keep the matching libraries'
    /// segment ranges as the blocklist.
    ///
    /// Which libraries are loaded depends on the process, so all that is
    /// promised is that the kept ranges are the resolution of `blocklist`
    /// against some library list.
    pub fn blocklist(self, blocklist: &Vec<String>) -> (r: ProfilerGuardBuilder)
        ensures
            r.frequency == self.frequency,
            exists|libs: Seq<LibraryInfo>|
                r.blocklist_segments@ == #[trigger] resolved_blocklist(
                    fragment_views(blocklist@),
                    libs,
                ),
    {
        let libs = loaded_libraries();
        let segments = resolve_blocklist(blocklist, &libs);
        proof {
            assert(segments@ == resolved_blocklist(fragment_views(blocklist@), libs@));
        }
        ProfilerGuardBuilder { blocklist_segments: segments, ..self }
    }

    /// Start a session on `profiler`: install the blocklist, move the state
    /// machine to running, and hand back the guard holding the live timer.
    /// Rejected with `Error::Running`, and the profiler left untouched, while
    /// a session is already running.
    pub fn build(self, profiler: &mut Profiler) -> (r: Result<ProfilerGuard, Error>)
        ensures
            r is Ok <==> !old(profiler).running,
            old(profiler).running ==> r == Err::<ProfilerGuard, Error>(Error::Running)
                && *final(profiler) == *old(profiler),
            !old(profiler).running ==> final(profiler).running
                && final(profiler).sample_counter == 0
                && final(profiler).blocklist_segments == self.blocklist_segments
                && final(profiler).data == old(profiler).data
                && (r matches Ok(g) && g.timer matches Some(t) && t.frequency == self.frequency),
            (final(profiler).running, final(profiler).sample_counter as int) == state_after_build(
                (old(profiler).running, old(profiler).sample_counter as int),
            ),
            old(profiler).wf() ==> final(profiler).wf(),
    {
        match profiler.start() {
            Err(err) => Err(err),
            Ok(()) => {
                profiler.set_blocklist(self.blocklist_segments);
                Ok(ProfilerGuard { timer: Some(Timer::new(self.frequency)) })
            },
        }
    }
}

/// The scope handle that owns an active profiling session. Building it is the
/// only way to start a session, and releasing it is the only way the session
/// ends: release disarms the timer first and then stops the profiler
/// unconditionally.
pub struct ProfilerGuard {
    pub timer: Option<Timer>,
}

impl ProfilerGuard {
    /// Start profiling with the given sampling frequency and no blocklist.
    pub fn new(frequency: i32, profiler: &mut Profiler) -> (r: Result<ProfilerGuard, Error>)
        ensures
            r is Ok <==> !old(profiler).running,
            old(profiler).running ==> r == Err::<ProfilerGuard, Error>(Error::Running)
                && *final(profiler) == *old(profiler),
            !old(profiler).running ==> final(profiler).running
                && final(profiler).sample_counter == 0
                && final(profiler).blocklist_segments@ == Seq::<(usize, usize)>::empty()
                && final(profiler).data == old(profiler).data
                && (r matches Ok(g) && g.timer matches Some(t) && t.frequency == frequency),
            old(profiler).wf() ==> final(profiler).wf(),
    {
        ProfilerGuardBuilder::default().frequency(frequency).build(profiler)
    }

    /// End the session: drop the timer handle, then stop the profiler. The
    /// stop outcome is handed back for the embedder to log; a destructor must
    /// never fail, so nothing here panics and an already idle profiler is
    /// left untouched.
    pub fn release(self, profiler: &mut Profiler) -> (r: Result<(), Error>)
        ensures
            !final(profiler).running,
            r is Ok <==> old(profiler).running,
            old(profiler).running ==> final(profiler).sample_counter == 0
                && final(profiler).data.entries@ == Seq::<(UnresolvedFrames, u32)>::empty()
                && final(profiler).blocklist_segments == old(profiler).blocklist_segments,
            !old(profiler).running ==> r == Err::<(), Error>(Error::NotRunning)
                && *final(profiler) == *old(profiler),
            (final(profiler).running, final(profiler).sample_counter as int) == state_after_release(
                (old(profiler).running, old(profiler).sample_counter as int),
            ),
            old(profiler).wf() ==> final(profiler).wf(),
    {
        let ProfilerGuard { timer } = self;
        match timer {
            Some(_) => {},
            None => {},
        }
        profiler.stop()
    }
}

} // verus!
