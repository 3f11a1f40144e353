//! The decisions of the blocking executors.
//!
//! A driver polls one future until it completes. A busy driver re-polls at once
//! after a spin hint; a parked driver blocks on its wake signal between polls. The
//! loop that performs the polls, hints and waits hands each poll's outcome to a
//! [`Driver`], which says what to do next.
use vstd::prelude::*;

use crate::signal::{state_after_all, waits_returned, SignalOp, SignalState};

verus! {

/// How a driver waits between polls.
#[derive(Debug, Clone, Copy, PartialEq, Eq, Structural)]
pub enum Strategy {
    /// Re-poll at once after a processor spin hint; never block the thread.
    Busy,
    /// Block on the wake signal until a waker sets it, then re-poll.
    Parked,
}

/// Where a driver stands in its run.
#[derive(Debug, Clone, Copy, PartialEq, Eq, Structural)]
pub enum Phase {
    /// The next thing to do is to poll the future.
    Polling,
    /// The future returned `Pending`; the driver waits before polling again.
    Suspended,
    /// The future returned `Ready`; the run is over.
    Complete,
}

/// What the driving loop does after a poll.
#[derive(Debug, PartialEq, Eq)]
pub enum Step<T> {
    /// Return this value to the caller.
    Finish(T),
    /// Issue a spin hint, then poll again.
    Spin,
    /// Wait for the wake signal, then poll again.
    Park,
}

/// The step that follows a poll with the given outcome.
pub open spec fn step_of<T>(strategy: Strategy, outcome: std::task::Poll<T>) -> Step<T> {
    match outcome {
        std::task::Poll::Ready(v) => Step::Finish(v),
        std::task::Poll::Pending => match strategy {
            Strategy::Busy => Step::Spin,
            Strategy::Parked => Step::Park,
        },
    }
}

/// The phase that follows a poll with the given outcome.
pub open spec fn phase_after<T>(outcome: std::task::Poll<T>) -> Phase {
    match outcome {
        std::task::Poll::Ready(_) => Phase::Complete,
        std::task::Poll::Pending => Phase::Suspended,
    }
}

/// The value that a driver returns when the successive polls of its future give
/// `outcomes`; `None` while it has not returned.
pub open spec fn run<T>(strategy: Strategy, outcomes: Seq<std::task::Poll<T>>) -> Option<T>
    decreases outcomes.len(),
{
    if outcomes.len() == 0 {
        None
    } else {
        match step_of(strategy, outcomes[0]) {
            Step::Finish(v) => Some(v),
            _ => run(strategy, outcomes.drop_first()),
        }
    }
}

/// How many polls a driver makes over `outcomes` before it returns (all of them
/// if it does not).
pub open spec fn polls_made<T>(strategy: Strategy, outcomes: Seq<std::task::Poll<T>>) -> nat
    decreases outcomes.len(),
{
    if outcomes.len() == 0 {
        0
    } else {
        match step_of(strategy, outcomes[0]) {
            Step::Finish(_) => 1,
            _ => 1 + polls_made(strategy, outcomes.drop_first()),
        }
    }
}

/// The value of the first `Ready` among `outcomes`: what driving the future by
/// hand, poll after poll, yields.
pub open spec fn first_ready<T>(outcomes: Seq<std::task::Poll<T>>) -> Option<T>
    decreases outcomes.len(),
{
    if outcomes.len() == 0 {
        None
    } else {
        match outcomes[0] {
            std::task::Poll::Ready(v) => Some(v),
            std::task::Poll::Pending => first_ready(outcomes.drop_first()),
        }
    }
}

/// `n` polls that return `Pending`, then one that returns `Ready(v)`.
pub open spec fn pending_then_ready<T>(n: nat, v: T) -> Seq<std::task::Poll<T>> {
    Seq::new(n, |i: int| std::task::Poll::Pending).push(std::task::Poll::Ready(v))
}

/// The state of one run of an executor over one future.
#[derive(Debug, Clone, Copy, PartialEq, Eq, Structural)]
pub struct Driver {
    pub strategy: Strategy,
    pub phase: Phase,
}

impl Driver {
    /// A driver that spins between polls, about to make its first poll.
    pub fn busy() -> (r: Driver)
        ensures
            r.strategy == Strategy::Busy,
            r.phase == Phase::Polling,
    {
        Driver { strategy: Strategy::Busy, phase: Phase::Polling }
    }

    /// A driver that blocks on its wake signal between polls, about to make its first poll.
    pub fn parked() -> (r: Driver)
        ensures
            r.strategy == Strategy::Parked,
            r.phase == Phase::Polling,
    {
        Driver { strategy: Strategy::Parked, phase: Phase::Polling }
    }

    /// Takes the outcome of a poll and says what to do next: finish with the
    /// value, or wait in the driver's way and poll again.
    pub fn after_poll<T>(&mut self, outcome: std::task::Poll<T>) -> (r: Step<T>)
        requires
            old(self).phase == Phase::Polling,
        ensures
            r == step_of(old(self).strategy, outcome),
            final(self).strategy == old(self).strategy,
            final(self).phase == phase_after(outcome),
    {
        match outcome {
            std::task::Poll::Ready(v) => {
                self.phase = Phase::Complete;
                Step::Finish(v)
            },
            std::task::Poll::Pending => {
                self.phase = Phase::Suspended;
                match self.strategy {
                    Strategy::Busy => Step::Spin,
                    Strategy::Parked => Step::Park,
                }
            },
        }
    }

    /// The wait is over (the spin hint was issued, or a wake released the wait):
    /// the driver polls again.
    pub fn resume(&mut self)
        requires
            old(self).phase == Phase::Suspended,
        ensures
            final(self).strategy == old(self).strategy,
            final(self).phase == Phase::Polling,
    {
        self.phase = Phase::Polling;
    }

    /// Whether the run is over.
    pub fn is_complete(&self) -> (r: bool)
        ensures
            r == (self.phase == Phase::Complete),
    {
        match self.phase {
            Phase::Complete => true,
            _ => false,
        }
    }
}

/// Either driver returns what driving the future by hand yields: the value of
/// the first `Ready`, after exactly the polls up to and including it.
pub proof fn lemma_drivers_return_first_ready<T>(outcomes: Seq<std::task::Poll<T>>)
    ensures
        run(Strategy::Busy, outcomes) == first_ready(outcomes),
        run(Strategy::Parked, outcomes) == first_ready(outcomes),
        polls_made(Strategy::Busy, outcomes) == polls_made(Strategy::Parked, outcomes),
    decreases outcomes.len(),
{
    if outcomes.len() > 0 {
        lemma_drivers_return_first_ready(outcomes.drop_first());
    }
}

/// A future that returns `Pending` `n` times and then `Ready(v)` makes either
/// driver return `v`, after `n + 1` polls.
pub proof fn lemma_drivers_finish_after_pending<T>(strategy: Strategy, n: nat, v: T)
    ensures
        run(strategy, pending_then_ready(n, v)) == Some(v),
        polls_made(strategy, pending_then_ready(n, v)) == n + 1,
        first_ready(pending_then_ready(n, v)) == Some(v),
    decreases n,
{
    let outcomes = pending_then_ready(n, v);
    if n == 0 {
        assert(outcomes[0] == std::task::Poll::Ready(v));
    } else {
        assert(outcomes[0] == std::task::Poll::<T>::Pending);
        assert(outcomes.drop_first() =~= pending_then_ready((n - 1) as nat, v));
        lemma_drivers_finish_after_pending(strategy, (n - 1) as nat, v);
    }
}

/// A future that wakes its own waker during a poll and then returns `Pending`
/// does not leave a parked driver blocked: the driver parks, its wait returns
/// at once on the wake already made, and it polls again. The same holds of a
/// wake from elsewhere that comes only while the wait blocks.
pub proof fn lemma_reentrant_wake_repolls<T>(driver: Driver, s: SignalState)
    requires
        driver.strategy == Strategy::Parked,
        driver.phase == Phase::Polling,
        s != SignalState::Waiting,
    ensures
        step_of(driver.strategy, std::task::Poll::<T>::Pending) == Step::<T>::Park,
        phase_after(std::task::Poll::<T>::Pending) == Phase::Suspended,
        waits_returned(s, seq![SignalOp::Wake, SignalOp::Wait]) == 1,
        state_after_all(s, seq![SignalOp::Wake, SignalOp::Wait]) == SignalState::Lowered,
        waits_returned(s, seq![SignalOp::Wait, SignalOp::Wake]) >= 1,
{
    crate::signal::lemma_wake_before_wait_is_seen(s);
    crate::signal::lemma_wake_during_wait_releases(s);
}

} // verus!
