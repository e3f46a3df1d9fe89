use vstd::prelude::*;

pub mod backend;
pub mod blocklist;
pub mod collector;
pub mod error;
pub mod frames;
pub mod guard;
pub mod profiler;

verus! {

/// Maximum number of frames kept in a single captured stack.
pub const MAX_DEPTH: usize = 32;

/// Maximum number of bytes kept of a thread's name.
pub const MAX_THREAD_NAME: usize = 16;

} // verus!
