//! A future that is always pending.
use vstd::prelude::*;

verus! {

/// A future that never completes: every poll returns `Poll::Pending`.
#[derive(Debug, Clone, Copy, PartialEq, Eq, Structural, PartialOrd, Ord, Hash)]
pub struct PendForever;

impl std::future::Future for PendForever {
    type Output = ();

    fn poll(self: std::pin::Pin<&mut Self>, cx: &mut std::task::Context<'_>) -> (r: std::task::Poll<()>)
        ensures
            r is Pending,
    {
        std::task::Poll::Pending
    }
}

impl Default for PendForever {
    fn default() -> (r: PendForever)
        ensures
            r == PendForever,
    {
        PendForever
    }
}

} // verus!
