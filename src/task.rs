//! Declarations of the std task types that the library passes through, and the
//! std calls that build and poll them.
use vstd::prelude::*;

verus! {

#[verifier::external_type_specification]
#[verifier::reject_recursive_types(T)]
pub struct ExPoll<T>(std::task::Poll<T>);

#[verifier::external_type_specification]
#[verifier::external_body]
pub struct ExWaker(std::task::Waker);

#[verifier::external_type_specification]
#[verifier::external_body]
pub struct ExContext<'a>(std::task::Context<'a>);

#[verifier::external_type_specification]
#[verifier::external_body]
#[verifier::reject_recursive_types(P)]
pub struct ExPin<P>(std::pin::Pin<P>);

/// Relies on `Future::poll`: one poll of the future, whose outcome the future alone decides.
#[verifier::external_body]
pub(crate) fn poll_pinned<F: std::future::Future>(
    future: std::pin::Pin<&mut F>,
    cx: &mut std::task::Context<'_>,
) -> (r: std::task::Poll<F::Output>) {
    future.poll(cx)
}

/// Relies on `Waker::noop`: a shared waker whose wake operations do nothing.
#[verifier::external_body]
pub(crate) fn noop_waker() -> (r: &'static std::task::Waker) {
    std::task::Waker::noop()
}

/// Relies on `Context::from_waker`: a polling context that hands out the given waker.
#[verifier::external_body]
pub(crate) fn context_from_waker<'a>(waker: &'a std::task::Waker) -> (r: std::task::Context<'a>) {
    std::task::Context::from_waker(waker)
}

/// Relies on `Box::pin`: moves the value to the heap and pins it there.
#[verifier::external_body]
pub(crate) fn boxed_pin<F>(value: F) -> (r: std::pin::Pin<Box<F>>) {
    Box::pin(value)
}

/// Relies on `Pin::as_mut`: a pinned mutable borrow of the pinned value.
#[verifier::external_body]
pub(crate) fn pin_as_mut<F>(pinned: &mut std::pin::Pin<Box<F>>) -> (r: std::pin::Pin<&mut F>) {
    pinned.as_mut()
}

} // verus!
