//! A generic adapter that lets a poll-based native future be consumed as a
//! coroutine object by a cooperatively scheduled host runtime.
//!
//! The host drives the adapter one step at a time through a resume/throw/close
//! surface.  Each drive polls the wrapped future once; when the future is not
//! ready, a parking backend suspends the calling task and later resumes it,
//! safely whether the resumption happens on the scheduler's own thread or on a
//! foreign worker thread.

pub mod backend;
pub mod coroutine;
pub mod laws;
pub mod thread_id;
