//! Thread identity and the choice of wake path.
//!
//! Each calling thread carries a process-unique small id (the host assigns it
//! lazily, once per thread).  The id serves one purpose here: deciding whether
//! a wake request may go straight to the scheduler (same thread as the one
//! that created the parking backend) or must take the scheduler's thread-safe
//! entry point (any other thread).

use vstd::prelude::*;

verus! {

/// Process-unique identifier of a calling thread.
pub type ThreadId = usize;

/// The two ways a parked task can be resumed.
#[derive(Clone, Copy, Debug, PartialEq, Eq, Structural)]
pub enum WakePath {
    /// Direct reschedule; valid only on the thread that owns the backend.
    Owning,
    /// Reschedule posted through the scheduler's thread-safe entry point;
    /// valid from any thread.
    ThreadSafe,
}

/// The wake path that is safe for a wake issued on `current` against a
/// backend owned by `owner`: the direct path exactly when the two threads
/// coincide.
pub open spec fn wake_path_for(owner: ThreadId, current: ThreadId) -> WakePath {
    if owner == current {
        WakePath::Owning
    } else {
        WakePath::ThreadSafe
    }
}

/// Picks the wake path for a wake issued on thread `current` against a
/// backend owned by thread `owner`.
pub fn choose_wake_path(owner: ThreadId, current: ThreadId) -> (path: WakePath)
    ensures
        path == wake_path_for(owner, current),
{
    if owner == current {
        WakePath::Owning
    } else {
        WakePath::ThreadSafe
    }
}

} // verus!
