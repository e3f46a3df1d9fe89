use vstd::prelude::*;

verus! {

/// The failures a caller of the profiler can observe. Platform capture
/// failures are recovered locally by the backend and never surface here.
#[derive(Clone, Copy, Debug, PartialEq, Eq, Structural)]
pub enum Error {
    /// `start` was called while a session was already running.
    Running,
    /// `stop` was called while no session was running.
    NotRunning,
    /// Process-wide profiler initialization failed.
    CreatingError,
}

impl Error {
    /// A short human-readable description of the error.
    pub fn message(&self) -> (r: &'static str)
        ensures
            *self == Error::Running ==> r@ == "profiler is already running"@,
            *self == Error::NotRunning ==> r@ == "profiler is not running"@,
            *self == Error::CreatingError ==> r@ == "failed to create the profiler"@,
    {
        match self {
            Error::Running => "profiler is already running",
            Error::NotRunning => "profiler is not running",
            Error::CreatingError => "failed to create the profiler",
        }
    }
}

} // verus!
