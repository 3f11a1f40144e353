//! A polling context whose waker does nothing.
use vstd::prelude::*;

use crate::task::{context_from_waker, noop_waker};

verus! {

/// Creates a polling context whose wake operations are discarded.
pub fn new_context() -> (r: std::task::Context<'static>) {
    context_from_waker(noop_waker())
}

} // verus!
