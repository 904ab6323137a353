use pyfuture::backend::SuspendSentinel;
use pyfuture::coroutine::{
    CloseAction, Completion, Coroutine, CoroutineState, DriveResult, DriveStart, PollOutcome,
};

const SCHEDULER_THREAD: usize = 5;

#[test]
fn immediate_unit_completion_without_backend() {
    // A future that completes immediately with a unit value: one resume
    // yields the completion, no suspend sentinel is produced, and the
    // backend is never created.
    let mut c: Coroutine<i32, (), u64> = Coroutine::from_future(0);
    let start = c.begin_drive(None);
    assert_eq!(start, DriveStart::Poll { notify_callback: None });
    let result = c.finish_drive(PollOutcome::Ready(()), SCHEDULER_THREAD);
    assert_eq!(result, DriveResult::Finished(Completion::Value(())));
    assert_eq!(c.state, CoroutineState::Completed(Completion::Value(())));
    assert!(c.backend.is_none());
    assert!(c.future.is_none());
}

#[test]
fn suspend_once_then_complete_forty_two() {
    // A controllable future: not ready on the first poll, ready with 42 on
    // the second.  The first resume yields a suspend sentinel; after the
    // harness wakes the backend, the next resume yields the completion.
    let mut c: Coroutine<&'static str, u64, u64> = Coroutine::from_future("test future");
    let start = c.begin_drive(None);
    assert_eq!(start, DriveStart::Poll { notify_callback: None });
    let first = c.finish_drive(PollOutcome::Pending, SCHEDULER_THREAD);
    assert_eq!(first, DriveResult::Suspended(SuspendSentinel { token: 0 }));
    let backend = c.backend.as_mut().expect("first suspension creates the backend");
    assert!(backend.parked);
    assert_eq!(backend.owner_thread, SCHEDULER_THREAD);
    backend.wake(SCHEDULER_THREAD);
    assert!(!c.backend.as_ref().unwrap().parked);

    let start = c.begin_drive(None);
    assert_eq!(start, DriveStart::Poll { notify_callback: None });
    let second = c.finish_drive(PollOutcome::Ready(42), SCHEDULER_THREAD);
    assert_eq!(second, DriveResult::Finished(Completion::Value(42)));
    assert_eq!(c.state, CoroutineState::Completed(Completion::Value(42)));
}

#[test]
fn second_suspension_reuses_backend() {
    let mut c: Coroutine<u8, u64, u64> = Coroutine::from_future(1);
    c.begin_drive(None);
    let first = c.finish_drive(PollOutcome::Pending, SCHEDULER_THREAD);
    assert_eq!(first, DriveResult::Suspended(SuspendSentinel { token: 0 }));
    c.backend.as_mut().unwrap().wake(SCHEDULER_THREAD);

    c.begin_drive(None);
    let second = c.finish_drive(PollOutcome::Pending, SCHEDULER_THREAD);
    assert_eq!(second, DriveResult::Suspended(SuspendSentinel { token: 1 }));
    let backend = c.backend.as_ref().unwrap();
    assert_eq!(backend.suspend_count, 2);
    assert_eq!(backend.owning_wakes, 1);
}

#[test]
fn native_error_completes_the_adapter() {
    let mut c: Coroutine<u8, u64, u64> = Coroutine::from_future(1);
    c.begin_drive(None);
    let result = c.finish_drive(PollOutcome::NativeError(77), SCHEDULER_THREAD);
    assert_eq!(result, DriveResult::Finished(Completion::NativeFailure(77)));
    assert_eq!(c.state, CoroutineState::Completed(Completion::NativeFailure(77)));
    assert!(c.future.is_none());
}

#[test]
fn conversion_failure_completes_the_adapter() {
    let mut c: Coroutine<u8, u64, u64> = Coroutine::from_future(1);
    c.begin_drive(None);
    let result = c.finish_drive(PollOutcome::ConversionFailed(13), SCHEDULER_THREAD);
    assert_eq!(result, DriveResult::Finished(Completion::ConversionError(13)));
    assert_eq!(c.state, CoroutineState::Completed(Completion::ConversionError(13)));
}

#[test]
fn driving_a_completed_adapter_is_exhausted() {
    let mut c: Coroutine<u8, u64, u64> = Coroutine::from_future(1);
    c.begin_drive(None);
    c.finish_drive(PollOutcome::Ready(42), SCHEDULER_THREAD);
    let again = c.begin_drive(None);
    assert_eq!(again, DriveStart::Exhausted(Completion::Value(42)));
    assert_eq!(c.state, CoroutineState::Completed(Completion::Value(42)));
}

#[test]
fn close_active_then_drive_is_usage_error() {
    let mut c: Coroutine<u8, u64, u64> = Coroutine::from_future(9);
    let action = c.close();
    assert_eq!(action, CloseAction::DropSilently(9));
    assert_eq!(c.state, CoroutineState::Closed);
    assert!(c.future.is_none());
    let resume = c.begin_drive(None);
    assert_eq!(resume, DriveStart::UsageError);
    let throw = c.begin_drive(Some(3));
    assert_eq!(throw, DriveStart::UsageError);
}

#[test]
fn close_mid_suspension_still_reaches_closed() {
    let mut c: Coroutine<u8, u64, u64> = Coroutine::from_future(9);
    c.begin_drive(None);
    c.finish_drive(PollOutcome::Pending, SCHEDULER_THREAD);
    let action = c.close();
    assert_eq!(action, CloseAction::DropSilently(9));
    assert_eq!(c.state, CoroutineState::Closed);
    assert_eq!(c.begin_drive(None), DriveStart::UsageError);
}

#[test]
fn close_is_idempotent() {
    let mut c: Coroutine<u8, u64, u64> = Coroutine::from_future(9);
    assert_eq!(c.close(), CloseAction::DropSilently(9));
    assert_eq!(c.close(), CloseAction::Nothing);
    assert_eq!(c.state, CoroutineState::Closed);
}

#[test]
fn close_on_completed_is_a_no_op() {
    let mut c: Coroutine<u8, u64, u64> = Coroutine::from_future(9);
    c.begin_drive(None);
    c.finish_drive(PollOutcome::Ready(1), SCHEDULER_THREAD);
    assert_eq!(c.close(), CloseAction::Nothing);
    assert_eq!(c.state, CoroutineState::Completed(Completion::Value(1)));
}

#[test]
fn close_notifies_registered_callback() {
    let mut c: Coroutine<u8, u64, u64> = Coroutine::new(9, true);
    assert_eq!(c.close(), CloseAction::NotifyThenDrop(9));
    assert_eq!(c.state, CoroutineState::Closed);
}

#[test]
fn throw_with_callback_polls_after_notifying() {
    let mut c: Coroutine<u8, u64, u64> = Coroutine::new(9, true);
    let start = c.begin_drive(Some(55));
    assert_eq!(start, DriveStart::Poll { notify_callback: Some(55) });
    assert_eq!(c.state, CoroutineState::Active);
    let result = c.finish_drive(PollOutcome::Ready(1), SCHEDULER_THREAD);
    assert_eq!(result, DriveResult::Finished(Completion::Value(1)));
}

#[test]
fn throw_without_callback_closes_and_reraises() {
    let mut c: Coroutine<u8, u64, u64> = Coroutine::from_future(9);
    let start = c.begin_drive(Some(55));
    assert_eq!(start, DriveStart::Reraise { exception: 55, retired: 9 });
    assert_eq!(c.state, CoroutineState::Closed);
    assert!(c.future.is_none());
    assert_eq!(c.begin_drive(None), DriveStart::UsageError);
}
