//! A model of the wake signal that a parked driver waits on.
//!
//! The running executor waits on a single-permit semaphore (see the
//! `blocking_semaphore` crate); this module states, as a sequential state
//! machine, what that semaphore guarantees, and proves the properties the parked
//! driver relies on. A wake raises the signal whether or not it is already
//! raised. A wait on a raised signal returns at once and lowers it; a wait on a
//! lowered signal blocks until the next wake, which releases it and leaves the
//! signal lowered. So no wake is lost, whether it comes before the wait starts
//! or while the wait blocks, and any number of wakes between two waits collapse
//! into one.
use vstd::prelude::*;

verus! {

/// One operation on the signal, as the polling thread and the wakers issue them.
#[derive(Debug, Clone, Copy, PartialEq, Eq, Structural)]
pub enum SignalOp {
    /// `wake` or `wake_by_ref` on a waker that shares the signal.
    Wake,
    /// The polling thread waits for the signal.
    Wait,
}

/// The state of the signal.
#[derive(Debug, Clone, Copy, PartialEq, Eq, Structural)]
pub enum SignalState {
    /// No wake is pending and nobody waits.
    Lowered,
    /// A wake is pending: the next wait returns at once.
    Raised,
    /// The polling thread is blocked in a wait: the next wake releases it.
    Waiting,
}

/// The state after one operation.
///
/// A wait while another wait blocks cannot happen (one thread polls and waits);
/// it is modelled as changing nothing.
pub open spec fn state_after(s: SignalState, op: SignalOp) -> SignalState {
    match op {
        SignalOp::Wake => match s {
            SignalState::Waiting => SignalState::Lowered,
            _ => SignalState::Raised,
        },
        SignalOp::Wait => match s {
            SignalState::Lowered => SignalState::Waiting,
            SignalState::Raised => SignalState::Lowered,
            SignalState::Waiting => SignalState::Waiting,
        },
    }
}

/// Whether the operation lets a wait return: a wait on a raised signal returns
/// at once, and a wake releases a blocked wait.
pub open spec fn releases(s: SignalState, op: SignalOp) -> bool {
    match op {
        SignalOp::Wake => s is Waiting,
        SignalOp::Wait => s is Raised,
    }
}

/// How many waits return during the operations `ops`, from the state `s`.
pub open spec fn waits_returned(s: SignalState, ops: Seq<SignalOp>) -> nat
    decreases ops.len(),
{
    if ops.len() == 0 {
        0
    } else {
        let returned: nat = if releases(s, ops[0]) { 1 } else { 0 };
        returned + waits_returned(state_after(s, ops[0]), ops.drop_first())
    }
}

/// The state after the operations `ops`, from the state `s`.
pub open spec fn state_after_all(s: SignalState, ops: Seq<SignalOp>) -> SignalState
    decreases ops.len(),
{
    if ops.len() == 0 {
        s
    } else {
        state_after_all(state_after(s, ops[0]), ops.drop_first())
    }
}

/// `n` wakes in a row.
pub open spec fn wakes(n: nat) -> Seq<SignalOp> {
    Seq::new(n, |i: int| SignalOp::Wake)
}

/// A sequential stand-in for the semaphore: not a counter, not a queue.
pub struct WakeFlag {
    state: SignalState,
}

impl View for WakeFlag {
    type V = SignalState;

    closed spec fn view(&self) -> SignalState {
        self.state
    }
}

impl WakeFlag {
    /// A lowered signal.
    pub fn new() -> (r: WakeFlag)
        ensures
            r@ == SignalState::Lowered,
    {
        WakeFlag { state: SignalState::Lowered }
    }

    /// Records a wake; `wake` and `wake_by_ref` both come here. Returns whether
    /// it released a blocked wait.
    pub fn wake(&mut self) -> (released: bool)
        ensures
            final(self)@ == state_after(old(self)@, SignalOp::Wake),
            released == releases(old(self)@, SignalOp::Wake),
    {
        match self.state {
            SignalState::Waiting => {
                self.state = SignalState::Lowered;
                true
            },
            _ => {
                self.state = SignalState::Raised;
                false
            },
        }
    }

    /// Starts a wait. Returns `true` when it returns at once on a pending wake;
    /// `false` when it blocks until the next wake.
    pub fn wait(&mut self) -> (returned: bool)
        requires
            old(self)@ != SignalState::Waiting,
        ensures
            final(self)@ == state_after(old(self)@, SignalOp::Wait),
            returned == releases(old(self)@, SignalOp::Wait),
    {
        match self.state {
            SignalState::Raised => {
                self.state = SignalState::Lowered;
                true
            },
            _ => {
                self.state = SignalState::Waiting;
                false
            },
        }
    }

    /// Whether a wake is pending.
    pub fn is_raised(&self) -> (r: bool)
        ensures
            r == (self@ == SignalState::Raised),
    {
        match self.state {
            SignalState::Raised => true,
            _ => false,
        }
    }

    /// Whether a wait blocks.
    pub fn is_waiting(&self) -> (r: bool)
        ensures
            r == (self@ == SignalState::Waiting),
    {
        match self.state {
            SignalState::Waiting => true,
            _ => false,
        }
    }
}

/// Unfolds the model over a sequence of two operations.
proof fn lemma_two_ops(s: SignalState, a: SignalOp, b: SignalOp)
    ensures
        waits_returned(s, seq![a, b]) == (if releases(s, a) { 1nat } else { 0nat }) + (if releases(
            state_after(s, a),
            b,
        ) { 1nat } else { 0nat }),
        state_after_all(s, seq![a, b]) == state_after(state_after(s, a), b),
{
    let ops = seq![a, b];
    let rest = seq![b];
    assert(ops[0] == a);
    assert(ops.drop_first() =~= rest);
    assert(rest[0] == b);
    assert(rest.drop_first() =~= Seq::<SignalOp>::empty());
    let t = state_after(s, a);
    assert(waits_returned(state_after(t, b), Seq::<SignalOp>::empty()) == 0);
    assert(state_after_all(state_after(t, b), Seq::<SignalOp>::empty()) == state_after(t, b));
    assert(waits_returned(t, rest) == (if releases(t, b) { 1nat } else { 0nat }));
    assert(state_after_all(t, rest) == state_after(t, b));
}

proof fn lemma_wakes_then(s: SignalState, n: nat, tail: Seq<SignalOp>)
    requires
        n >= 1,
        s != SignalState::Waiting,
    ensures
        waits_returned(s, wakes(n) + tail) == waits_returned(SignalState::Raised, tail),
    decreases n,
{
    let ops = wakes(n) + tail;
    assert(ops[0] == SignalOp::Wake);
    if n == 1 {
        assert(ops.drop_first() =~= tail);
    } else {
        assert(ops.drop_first() =~= wakes((n - 1) as nat) + tail);
        lemma_wakes_then(SignalState::Raised, (n - 1) as nat, tail);
    }
}

/// Wakes coalesce: between two polls no wait is in progress, and any number
/// `n >= 1` of wakes there lets exactly one wait return; the wait after it
/// blocks. So the parked future is polled once more, not `n` times.
pub proof fn lemma_wakes_coalesce(s: SignalState, n: nat)
    requires
        n >= 1,
        s != SignalState::Waiting,
    ensures
        waits_returned(s, wakes(n) + seq![SignalOp::Wait, SignalOp::Wait]) == 1,
{
    lemma_wakes_then(s, n, seq![SignalOp::Wait, SignalOp::Wait]);
    lemma_two_ops(SignalState::Raised, SignalOp::Wait, SignalOp::Wait);
}

/// No lost wakeup, first half: a wake made before the wait starts (during the
/// poll, or after it and before the wait) lets that wait return at once.
pub proof fn lemma_wake_before_wait_is_seen(s: SignalState)
    requires
        s != SignalState::Waiting,
    ensures
        waits_returned(s, seq![SignalOp::Wake, SignalOp::Wait]) == 1,
        state_after_all(s, seq![SignalOp::Wake, SignalOp::Wait]) == SignalState::Lowered,
{
    lemma_two_ops(s, SignalOp::Wake, SignalOp::Wait);
}

/// No lost wakeup, second half: a wake that comes while the wait blocks
/// releases that wait, and leaves the signal lowered.
pub proof fn lemma_wake_during_wait_releases(s: SignalState)
    requires
        s != SignalState::Waiting,
    ensures
        waits_returned(s, seq![SignalOp::Wait, SignalOp::Wake]) >= 1,
        s == SignalState::Lowered ==> state_after(s, SignalOp::Wait) == SignalState::Waiting
            && releases(SignalState::Waiting, SignalOp::Wake)
            && state_after_all(s, seq![SignalOp::Wait, SignalOp::Wake]) == SignalState::Lowered,
{
    lemma_two_ops(s, SignalOp::Wait, SignalOp::Wake);
}

} // verus!
