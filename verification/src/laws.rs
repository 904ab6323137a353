//! Laws of the adapter: properties that hold of every adapter and every
//! drive, proved once over the transition functions that the executable
//! surface is specified against.

use vstd::prelude::*;

use crate::backend::{backend_woken, ParkingBackend};
use crate::coroutine::{
    begin_drive_spec, close_spec, finish_drive_spec, CloseAction, Completion, Coroutine,
    CoroutineState, DriveResult, DriveStart, PollOutcome,
};
use crate::thread_id::{wake_path_for, ThreadId, WakePath};

verus! {

/// A future that resolves on its first poll completes the adapter in one
/// drive, yielding the converted value as the final result, and the parking
/// backend is never created.
pub proof fn lemma_immediate_completion<F, V: Copy, X: Copy>(
    c: Coroutine<F, V, X>,
    v: V,
    current: ThreadId,
)
    requires
        c.wf(),
        c.state is Active,
        c.backend is None,
    ensures
        ({
            let (polled, start) = begin_drive_spec(c, None);
            let (done, result) = finish_drive_spec(polled, PollOutcome::Ready(v), current);
            &&& start == (DriveStart::<F, V, X>::Poll { notify_callback: None })
            &&& polled == c
            &&& result == DriveResult::Finished(Completion::<V, X>::Value(v))
            &&& done.state == CoroutineState::Completed(Completion::<V, X>::Value(v))
            &&& done.backend is None
        }),
{
}

/// A future that is not ready exactly once and then resolves: the first
/// drive creates the backend, owned by the driving thread, and yields
/// exactly one suspend sentinel — the backend's first; after one wake, from
/// whatever thread, the next drive yields the completion with the resolved
/// value.
pub proof fn lemma_suspend_once_then_complete<F, V: Copy, X: Copy>(
    c: Coroutine<F, V, X>,
    v: V,
    scheduler_thread: ThreadId,
    waking_thread: ThreadId,
)
    requires
        c.wf(),
        c.state is Active,
        c.backend is None,
    ensures
        ({
            let (polled1, start1) = begin_drive_spec(c, None);
            let (parked, result1) = finish_drive_spec(
                polled1,
                PollOutcome::Pending,
                scheduler_thread,
            );
            let woken = Coroutine {
                backend: Some(
                    backend_woken(
                        parked.backend->0,
                        wake_path_for((parked.backend->0).owner_thread, waking_thread),
                    ),
                ),
                ..parked
            };
            let (polled2, start2) = begin_drive_spec(woken, None);
            let (done, result2) = finish_drive_spec(polled2, PollOutcome::Ready(v), scheduler_thread);
            &&& start1 == (DriveStart::<F, V, X>::Poll { notify_callback: None })
            &&& result1 matches DriveResult::Suspended(sentinel) && sentinel.token == 0
            &&& parked.state is Active
            &&& parked.backend matches Some(b) && b.owner_thread == scheduler_thread && b.parked
                && b.suspend_count == 1
            &&& !(woken.backend->0).parked
            &&& woken.poll_ready(scheduler_thread)
            &&& start2 == (DriveStart::<F, V, X>::Poll { notify_callback: None })
            &&& result2 == DriveResult::Finished(Completion::<V, X>::Value(v))
            &&& done.state == CoroutineState::Completed(Completion::<V, X>::Value(v))
        }),
{
}

/// Closing an active adapter always reaches `Closed`, and every later drive
/// — resume or throw, regardless of how far the future had progressed —
/// fails with the usage error and changes nothing.
pub proof fn lemma_close_then_drive_fails<F, V: Copy, X: Copy>(
    c: Coroutine<F, V, X>,
    thrown: Option<X>,
)
    requires
        c.wf(),
        c.state is Active,
    ensures
        ({
            let (closed, _) = close_spec(c);
            let (after, start) = begin_drive_spec(closed, thrown);
            &&& closed.state is Closed
            &&& start == DriveStart::<F, V, X>::UsageError
            &&& after == closed
        }),
{
}

/// The thread-safe wake path is taken exactly when the wake is issued on a
/// thread other than the backend's owning thread — and it is then the only
/// path that fires: the direct-reschedule count is untouched.
pub proof fn lemma_cross_thread_wake_is_threadsafe(b: ParkingBackend, current: ThreadId)
    requires
        b.counters_ok(),
    ensures
        wake_path_for(b.owner_thread, current) is ThreadSafe <==> current != b.owner_thread,
        current != b.owner_thread ==> ({
            let woken = backend_woken(b, wake_path_for(b.owner_thread, current));
            &&& woken.threadsafe_wakes == b.threadsafe_wakes + 1
            &&& woken.owning_wakes == b.owning_wakes
        }),
        current == b.owner_thread ==> ({
            let woken = backend_woken(b, wake_path_for(b.owner_thread, current));
            &&& woken.owning_wakes == b.owning_wakes + 1
            &&& woken.threadsafe_wakes == b.threadsafe_wakes
        }),
{
}

/// The backend is never woken once the adapter has left `Active`: a drive
/// may only run with no suspension outstanding, so when it resolves the
/// future, the backend it leaves behind is unparked — and every wake
/// operation demands a parked backend.
pub proof fn lemma_no_wake_after_completion<F, V: Copy, X: Copy>(
    c: Coroutine<F, V, X>,
    outcome: PollOutcome<V, X>,
    current: ThreadId,
)
    requires
        c.wf(),
        c.poll_ready(current),
        !(outcome is Pending),
    ensures
        ({
            let (done, _) = finish_drive_spec(c, outcome, current);
            &&& !(done.state is Active)
            &&& done.backend matches Some(b) ==> !b.parked
        }),
{
}

/// `close` is idempotent: whatever state the adapter is in, a second close
/// changes nothing and asks no further work of the host.
pub proof fn lemma_close_idempotent<F, V: Copy, X: Copy>(c: Coroutine<F, V, X>)
    ensures
        ({
            let (once, _) = close_spec(c);
            close_spec(once) == (once, CloseAction::<F>::Nothing)
        }),
{
}

} // verus!
