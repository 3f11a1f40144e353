//! Small executors for driving one asynchronous computation to completion.
//!
//! The library holds the decisions of the blocking executors (what a driver
//! does after each poll), a model of the coalescing wake signal that a parked
//! driver waits on, and single-shot polling with a waker that discards its
//! wakes.
use vstd::prelude::*;

pub mod aruntime;
pub mod executor;
pub mod noop_waker;
pub mod pend_forever;
pub mod signal;
mod task;

pub use crate::noop_waker::new_context;

use crate::task::{boxed_pin, pin_as_mut, poll_pinned};

verus! {

/// Polls a pinned future exactly once, with a waker that discards its wakes.
///
/// The future stays with the caller, who may poll it again later.
pub fn poll_once<F: std::future::Future>(future: std::pin::Pin<&mut F>) -> (r: std::task::Poll<F::Output>) {
    let mut cx = new_context();
    poll_pinned(future, &mut cx)
}

/// Takes a future, pins it, and polls it exactly once, with a waker that
/// discards its wakes. The future is dropped afterwards.
pub fn poll_once_pin<F: std::future::Future>(future: F) -> (r: std::task::Poll<F::Output>) {
    let mut pinned = boxed_pin(future);
    poll_once(pin_as_mut(&mut pinned))
}

} // verus!
