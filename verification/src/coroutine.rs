//! The coroutine adapter: the state machine that lets a poll-based future be
//! driven through a resume/throw/close surface.
//!
//! The adapter owns the wrapped future and a lazily created parking backend.
//! Its state moves from [`CoroutineState::Active`] to either
//! [`CoroutineState::Completed`] (the future resolved, with a value or an
//! error) or [`CoroutineState::Closed`] (explicitly closed); both terminal
//! states reject further drives.  The future is owned exclusively and is
//! destroyed — handed back to the caller for dropping, or dropped in place —
//! exactly when the adapter leaves `Active`.
//!
//! A drive cycle runs in two phases.  [`Coroutine::begin_drive`] applies the
//! rules that precede any polling: terminal states fail immediately, and a
//! thrown exception with no registered throw callback cannot be injected into
//! an opaque future, so it closes the adapter and is surfaced as the failure
//! of the call itself.  When `begin_drive` answers [`DriveStart::Poll`], the
//! host polls the wrapped future exactly once — work the adapter cannot do
//! itself — and reports the outcome to [`Coroutine::finish_drive`], which
//! performs the transition: a resolution completes the adapter, while
//! not-ready creates the parking backend if this is the first suspension and
//! parks the caller, forwarding the backend's sentinel unmodified.

use vstd::prelude::*;

use crate::backend::{backend_created, backend_suspended, ParkingBackend, SuspendSentinel};
use crate::thread_id::ThreadId;

verus! {

/// How a completed adapter finished: the future's converted value, or one of
/// the two ways resolution can fail.
#[derive(Clone, Copy, Debug, PartialEq, Eq)]
pub enum Completion<V, X> {
    /// The future resolved and its value was converted to the host's value
    /// representation.
    Value(V),
    /// The future resolved with a value that could not be represented in the
    /// host's value model; surfaced as a host exception.
    ConversionError(X),
    /// The future resolved with an error, propagated verbatim as a host
    /// exception.
    NativeFailure(X),
}

/// State of the adapter.
#[derive(Clone, Copy, Debug, PartialEq, Eq)]
pub enum CoroutineState<V, X> {
    /// The future is unresolved and the adapter has not been closed.
    Active,
    /// The future resolved; the recorded completion is carried by the
    /// end-of-sequence answer of any later drive.
    Completed(Completion<V, X>),
    /// The adapter was explicitly closed; any later drive is a usage error.
    Closed,
}

/// What one poll of the wrapped future produced, in the host's terms.
#[derive(Clone, Copy, Debug, PartialEq, Eq)]
pub enum PollOutcome<V, X> {
    /// The future is not ready; the caller must be parked.
    Pending,
    /// The future resolved and its value converted to the host
    /// representation.
    Ready(V),
    /// The future resolved, but converting its value to the host
    /// representation failed with the given host exception.
    ConversionFailed(X),
    /// The future resolved with an error.
    NativeError(X),
}

/// Answer of [`Coroutine::begin_drive`]: either the go-ahead to poll, or the
/// immediate failure of the drive.
#[derive(Debug, PartialEq, Eq)]
pub enum DriveStart<F, V, X> {
    /// The adapter is active: if `notify_callback` carries an exception, the
    /// host must invoke the registered throw callback with it first, then
    /// poll the wrapped future once and report to
    /// [`Coroutine::finish_drive`].
    Poll { notify_callback: Option<X> },
    /// The adapter had already completed: the host's end-of-sequence signal,
    /// carrying the recorded completion.
    Exhausted(Completion<V, X>),
    /// The adapter was closed: driving it is a usage error.
    UsageError,
    /// An exception was thrown at an adapter with no throw callback: there is
    /// no point at which it could be injected into the opaque future, so the
    /// adapter is now closed and the exception is the failure of this call.
    /// The future is handed back for the host to drop.
    Reraise { exception: X, retired: F },
}

/// Answer of [`Coroutine::finish_drive`]: what this drive cycle yields.
#[derive(Clone, Copy, Debug, PartialEq, Eq)]
pub enum DriveResult<V, X> {
    /// The future was not ready: the caller is parked, and this sentinel must
    /// be forwarded, unmodified, as the drive's yielded result, so that the
    /// host scheduler performs the real suspension.
    Suspended(SuspendSentinel),
    /// The future resolved: the adapter is completed, and this is the final,
    /// end-of-sequence result ([`Completion::Value`]) or the exception to
    /// raise (the error completions).
    Finished(Completion<V, X>),
}

/// Answer of [`Coroutine::close`]: what the host must still do.
#[derive(Debug, PartialEq, Eq)]
pub enum CloseAction<F> {
    /// A throw callback is registered: invoke it with the closing signal,
    /// then drop the future.
    NotifyThenDrop(F),
    /// No throw callback: drop the future without notification.
    DropSilently(F),
    /// The adapter was not active: closing again is a no-op.
    Nothing,
}

/// The future-to-coroutine adapter.
///
/// `F` is the wrapped native future (opaque to the adapter), `V` the host's
/// value representation, `X` the host's exception representation.
pub struct Coroutine<F, V, X> {
    /// State of the adapter.
    pub state: CoroutineState<V, X>,
    /// The wrapped future: present exactly while the adapter is active.
    pub future: Option<F>,
    /// Whether a throw/close callback was registered at construction.
    pub has_throw_callback: bool,
    /// The parking backend, created lazily at the first suspension; at most
    /// one instance over the adapter's lifetime.
    pub backend: Option<ParkingBackend>,
}

/// The adapter a fresh construction yields: active, owning `future`, no
/// backend created yet.
pub open spec fn coroutine_new_spec<F, V, X>(future: F, has_throw_callback: bool) -> Coroutine<
    F,
    V,
    X,
> {
    Coroutine {
        state: CoroutineState::Active,
        future: Some(future),
        has_throw_callback: has_throw_callback,
        backend: None,
    }
}

/// Adapter state and answer of the pre-poll phase of a drive carrying
/// `thrown` (the exception of a `throw`, or `None` for a plain resume).
pub open spec fn begin_drive_spec<F, V, X>(
    c: Coroutine<F, V, X>,
    thrown: Option<X>,
) -> (Coroutine<F, V, X>, DriveStart<F, V, X>) {
    match c.state {
        CoroutineState::Completed(done) => (c, DriveStart::Exhausted(done)),
        CoroutineState::Closed => (c, DriveStart::UsageError),
        CoroutineState::Active => match thrown {
            None => (c, DriveStart::Poll { notify_callback: None }),
            Some(exception) => if c.has_throw_callback {
                (c, DriveStart::Poll { notify_callback: Some(exception) })
            } else {
                (
                    Coroutine { state: CoroutineState::Closed, future: None, ..c },
                    DriveStart::Reraise { exception, retired: c.future->0 },
                )
            },
        },
    }
}

/// Adapter state and answer of the post-poll phase of a drive, for poll
/// outcome `outcome` on thread `current`.
pub open spec fn finish_drive_spec<F, V, X>(
    c: Coroutine<F, V, X>,
    outcome: PollOutcome<V, X>,
    current: ThreadId,
) -> (Coroutine<F, V, X>, DriveResult<V, X>) {
    match outcome {
        PollOutcome::Pending => {
            let before = match c.backend {
                Some(b) => b,
                None => backend_created(current),
            };
            let (after, sentinel) = backend_suspended(before);
            (Coroutine { backend: Some(after), ..c }, DriveResult::Suspended(sentinel))
        },
        PollOutcome::Ready(v) => (
            Coroutine { state: CoroutineState::Completed(Completion::Value(v)), future: None, ..c },
            DriveResult::Finished(Completion::Value(v)),
        ),
        PollOutcome::ConversionFailed(x) => (
            Coroutine {
                state: CoroutineState::Completed(Completion::ConversionError(x)),
                future: None,
                ..c
            },
            DriveResult::Finished(Completion::ConversionError(x)),
        ),
        PollOutcome::NativeError(x) => (
            Coroutine {
                state: CoroutineState::Completed(Completion::NativeFailure(x)),
                future: None,
                ..c
            },
            DriveResult::Finished(Completion::NativeFailure(x)),
        ),
    }
}

/// Adapter state and remaining host work of a `close` call.
pub open spec fn close_spec<F, V, X>(c: Coroutine<F, V, X>) -> (Coroutine<F, V, X>, CloseAction<
    F,
>) {
    match c.state {
        CoroutineState::Active => {
            let closed = Coroutine { state: CoroutineState::Closed, future: None, ..c };
            if c.has_throw_callback {
                (closed, CloseAction::NotifyThenDrop(c.future->0))
            } else {
                (closed, CloseAction::DropSilently(c.future->0))
            }
        },
        _ => (c, CloseAction::Nothing),
    }
}

impl<F, V: Copy, X: Copy> Coroutine<F, V, X> {
    /// Well-formedness: the adapter owns the wrapped future exactly while it
    /// is active.
    pub open spec fn wf(self) -> bool {
        self.future is Some <==> self.state is Active
    }

    /// The adapter is in a position to have its future polled on thread
    /// `current`: it is active, all drives run on the thread that owns the
    /// backend (the host serializes them on the scheduler's own thread), no
    /// suspension is outstanding, and the backend's counters have room.
    pub open spec fn poll_ready(self, current: ThreadId) -> bool {
        &&& self.state is Active
        &&& match self.backend {
            Some(b) => b.owner_thread == current && !b.parked && b.counters_ok(),
            None => true,
        }
    }

    /// Wraps `future` in a fresh adapter.
    ///
    /// `has_throw_callback` records whether the host registered a throw/close
    /// callback; it decides whether `throw` can inject an exception and
    /// whether `close` notifies before dropping the future.
    pub fn new(future: F, has_throw_callback: bool) -> (c: Self)
        ensures
            c == coroutine_new_spec::<F, V, X>(future, has_throw_callback),
    {
        Coroutine {
            state: CoroutineState::Active,
            future: Some(future),
            has_throw_callback,
            backend: None,
        }
    }

    /// Wraps `future` in a fresh adapter with no throw/close callback.
    pub fn from_future(future: F) -> (c: Self)
        ensures
            c == coroutine_new_spec::<F, V, X>(future, false),
    {
        Self::new(future, false)
    }

    /// The pre-poll phase of a drive: `resume` passes `None`, `throw` passes
    /// its exception.  Terminal states fail immediately — the end-of-sequence
    /// signal with the recorded completion if completed, a usage error if
    /// closed.  A thrown exception with no registered callback closes the
    /// adapter and becomes the failure of this call.  Otherwise the host must
    /// poll the wrapped future once and report to [`Self::finish_drive`].
    pub fn begin_drive(&mut self, thrown: Option<X>) -> (start: DriveStart<F, V, X>)
        requires
            old(self).wf(),
        ensures
            (*final(self), start) == begin_drive_spec(*old(self), thrown),
            final(self).wf(),
    {
        match self.state {
            CoroutineState::Completed(done) => DriveStart::Exhausted(done),
            CoroutineState::Closed => DriveStart::UsageError,
            CoroutineState::Active => match thrown {
                None => DriveStart::Poll { notify_callback: None },
                Some(exception) => {
                    if self.has_throw_callback {
                        DriveStart::Poll { notify_callback: Some(exception) }
                    } else {
                        let retired = self.future.take().unwrap();
                        self.state = CoroutineState::Closed;
                        DriveStart::Reraise { exception, retired }
                    }
                },
            },
        }
    }

    /// The post-poll phase of a drive: applies what one poll of the wrapped
    /// future produced.
    ///
    /// A resolution moves the adapter to `Completed`, destroys the future,
    /// and leaves the backend exactly as it was — in particular, a future
    /// that resolves before ever suspending never causes a backend to be
    /// created.  Not-ready creates the backend on its first suspension,
    /// capturing `current` as the owning thread, parks the caller, and hands
    /// back the suspension's sentinel for the host to forward unmodified.
    pub fn finish_drive(&mut self, outcome: PollOutcome<V, X>, current: ThreadId) -> (result:
        DriveResult<V, X>)
        requires
            old(self).wf(),
            old(self).poll_ready(current),
        ensures
            (*final(self), result) == finish_drive_spec(*old(self), outcome, current),
            final(self).wf(),
    {
        match outcome {
            PollOutcome::Pending => {
                if self.backend.is_none() {
                    self.backend = Some(ParkingBackend::create(current));
                }
                let sentinel = match &mut self.backend {
                    Some(b) => b.suspend(current),
                    None => unreached(),
                };
                DriveResult::Suspended(sentinel)
            },
            PollOutcome::Ready(v) => {
                self.future = None;
                self.state = CoroutineState::Completed(Completion::Value(v));
                DriveResult::Finished(Completion::Value(v))
            },
            PollOutcome::ConversionFailed(x) => {
                self.future = None;
                self.state = CoroutineState::Completed(Completion::ConversionError(x));
                DriveResult::Finished(Completion::ConversionError(x))
            },
            PollOutcome::NativeError(x) => {
                self.future = None;
                self.state = CoroutineState::Completed(Completion::NativeFailure(x));
                DriveResult::Finished(Completion::NativeFailure(x))
            },
        }
    }

    /// Closes the adapter.
    ///
    /// On an active adapter the state becomes `Closed` and the future is
    /// handed back for the host to drop — after notifying the throw/close
    /// callback with the closing signal, when one is registered.  On a
    /// completed or closed adapter this is a no-op.
    pub fn close(&mut self) -> (action: CloseAction<F>)
        requires
            old(self).wf(),
        ensures
            (*final(self), action) == close_spec(*old(self)),
            final(self).wf(),
    {
        match self.state {
            CoroutineState::Active => {
                let retired = self.future.take().unwrap();
                self.state = CoroutineState::Closed;
                if self.has_throw_callback {
                    CloseAction::NotifyThenDrop(retired)
                } else {
                    CloseAction::DropSilently(retired)
                }
            },
            _ => CloseAction::Nothing,
        }
    }
}

} // verus!
