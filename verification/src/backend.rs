//! The parking backend: the capability that suspends the calling task when
//! the wrapped future is not ready and resumes it once the future's own wake
//! path fires.
//!
//! A backend instance is created lazily, at the first suspension an adapter
//! needs, and captures the identity of the thread it was created on (the
//! scheduler's own thread).  Suspending is only legal for the task that is
//! parking itself; resuming is legal from the owning thread directly
//! ([`ParkingBackend::wake`]) or from any thread through the scheduler's
//! thread-safe entry point ([`ParkingBackend::wake_threadsafe`]).  A
//! cooperative scheduler's ready queue is single-threaded: a wake that
//! originates off its own thread must go through an indirection the scheduler
//! itself exposes, which is why the two paths are kept apart and why
//! [`ParkingBackend::wake_from`] chooses between them by thread identity.
//!
//! The backend records how many times each path fired, so that both the
//! contracts here and a test harness can observe which path a wake took.

use vstd::prelude::*;

use crate::thread_id::{wake_path_for, ThreadId, WakePath};

verus! {

/// Token returned by [`ParkingBackend::suspend`].
///
/// It stands for "treat the caller as now parked" and must be forwarded,
/// unmodified, up through the coroutine surface so that the host scheduler
/// performs the real suspension.  The token number is the index of the
/// suspension that produced it, so a forwarded sentinel can be traced to its
/// suspension.
#[derive(Clone, Copy, Debug, PartialEq, Eq, Structural)]
pub struct SuspendSentinel {
    /// Index of the suspension that produced this sentinel: `0` for the
    /// backend's first suspension, `1` for the second, and so on.
    pub token: u64,
}

/// What the abort callback registered during a suspension reports when the
/// scheduler forcibly cancels the park.
#[derive(Clone, Copy, Debug, PartialEq, Eq, Structural)]
pub enum AbortOutcome {
    /// The park is to be treated as already satisfied.
    Succeeded,
    /// The park could not be abandoned yet.
    Failed,
}

/// State of one parking backend instance.
///
/// At most one instance exists per adapter; it never outlives the adapter.
#[derive(Clone, Copy, Debug, PartialEq, Eq, Structural)]
pub struct ParkingBackend {
    /// Identity of the thread the backend was created on; wakes issued on any
    /// other thread must take the thread-safe path.
    pub owner_thread: ThreadId,
    /// Whether a suspension is outstanding: the task parked itself and no
    /// wake has fired yet.
    pub parked: bool,
    /// How many suspensions this backend has performed.
    pub suspend_count: u64,
    /// How many wakes took the direct, owning-thread path.
    pub owning_wakes: u64,
    /// How many wakes went through the scheduler's thread-safe entry point.
    pub threadsafe_wakes: u64,
}

/// The backend a fresh creation on thread `current` yields: owned by
/// `current`, not parked, no suspension or wake performed yet.
pub open spec fn backend_created(current: ThreadId) -> ParkingBackend {
    ParkingBackend {
        owner_thread: current,
        parked: false,
        suspend_count: 0,
        owning_wakes: 0,
        threadsafe_wakes: 0,
    }
}

/// State and sentinel a suspension of `b` yields: the task is parked and the
/// sentinel carries the index of this suspension.
pub open spec fn backend_suspended(b: ParkingBackend) -> (ParkingBackend, SuspendSentinel) {
    (
        ParkingBackend { parked: true, suspend_count: (b.suspend_count + 1) as u64, ..b },
        SuspendSentinel { token: b.suspend_count },
    )
}

/// State a wake of `b` along `path` yields: the task is no longer parked and
/// the count of the path that fired grew by one.
pub open spec fn backend_woken(b: ParkingBackend, path: WakePath) -> ParkingBackend {
    match path {
        WakePath::Owning => ParkingBackend {
            parked: false,
            owning_wakes: (b.owning_wakes + 1) as u64,
            ..b
        },
        WakePath::ThreadSafe => ParkingBackend {
            parked: false,
            threadsafe_wakes: (b.threadsafe_wakes + 1) as u64,
            ..b
        },
    }
}

impl ParkingBackend {
    /// The counters have room for one more event.  All contracts state exact
    /// increments, so each counting operation asks for this first.
    pub open spec fn counters_ok(self) -> bool {
        &&& self.suspend_count < u64::MAX
        &&& self.owning_wakes < u64::MAX
        &&& self.threadsafe_wakes < u64::MAX
    }

    /// Creates a backend instance, capturing the calling task's identity.
    ///
    /// `current` must be the id of the thread this call runs on; the backend
    /// is then owned by that thread.
    pub fn create(current: ThreadId) -> (b: ParkingBackend)
        ensures
            b == backend_created(current),
    {
        ParkingBackend {
            owner_thread: current,
            parked: false,
            suspend_count: 0,
            owning_wakes: 0,
            threadsafe_wakes: 0,
        }
    }

    /// Parks the calling task and returns the sentinel that the coroutine
    /// surface must forward, unmodified, to the host scheduler.
    ///
    /// Only the task that is suspending itself may call this, so the call
    /// must run on the owning thread, and at most one suspension may be
    /// outstanding at a time.
    pub fn suspend(&mut self, current: ThreadId) -> (sentinel: SuspendSentinel)
        requires
            current == old(self).owner_thread,
            !old(self).parked,
            old(self).counters_ok(),
        ensures
            (*final(self), sentinel) == backend_suspended(*old(self)),
    {
        let sentinel = SuspendSentinel { token: self.suspend_count };
        self.parked = true;
        self.suspend_count = self.suspend_count + 1;
        sentinel
    }

    /// Resumes the parked task by a direct reschedule request.
    ///
    /// Valid only from the owning thread: a direct reschedule touches the
    /// scheduler's single-threaded state.
    pub fn wake(&mut self, current: ThreadId)
        requires
            current == old(self).owner_thread,
            old(self).parked,
            old(self).counters_ok(),
        ensures
            *final(self) == backend_woken(*old(self), WakePath::Owning),
    {
        self.parked = false;
        self.owning_wakes = self.owning_wakes + 1;
    }

    /// Resumes the parked task through the scheduler's thread-safe entry
    /// point, never touching scheduler state directly.  Valid from any
    /// thread.
    pub fn wake_threadsafe(&mut self)
        requires
            old(self).parked,
            old(self).counters_ok(),
        ensures
            *final(self) == backend_woken(*old(self), WakePath::ThreadSafe),
    {
        self.parked = false;
        self.threadsafe_wakes = self.threadsafe_wakes + 1;
    }

    /// Resumes the parked task from thread `current`, choosing the wake path
    /// by thread identity: the direct path exactly when `current` is the
    /// owning thread, the thread-safe path for every other thread.
    pub fn wake_from(&mut self, current: ThreadId)
        requires
            old(self).parked,
            old(self).counters_ok(),
        ensures
            *final(self) == backend_woken(
                *old(self),
                wake_path_for(old(self).owner_thread, current),
            ),
    {
        if current == self.owner_thread {
            self.wake(current);
        } else {
            self.wake_threadsafe();
        }
    }

    /// The abort callback registered during a suspension: called when the
    /// scheduler forcibly cancels the park, it always reports the park as
    /// already satisfied, because the wrapped computation is treated as
    /// non-interruptible once dispatched.
    pub fn abort_park(&self) -> (outcome: AbortOutcome)
        ensures
            outcome == AbortOutcome::Succeeded,
    {
        AbortOutcome::Succeeded
    }
}

} // verus!
