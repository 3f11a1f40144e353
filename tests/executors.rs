use std::cell::RefCell;
use std::future::Future;
use std::pin::Pin;
use std::rc::Rc;
use std::task::{Context, Poll};

use test_executors::aruntime::{SleepRuntime, SpawnRuntime, SpinRuntime};
use test_executors::executor::{Driver, Phase, Step, Strategy};
use test_executors::new_context;
use test_executors::pend_forever::PendForever;
use test_executors::signal::WakeFlag;
use test_executors::{poll_once, poll_once_pin};

fn require_send_sync<T: Send + Sync>() {}

/// Returns `Pending` until it has been polled `target` times, then the poll
/// count. Each `Pending` poll first wakes the shared flag `wakes` times, as a
/// future that wakes its own waker does.
struct Countdown {
    polls: u32,
    target: u32,
    wakes: u32,
    flag: Rc<RefCell<WakeFlag>>,
}

impl Countdown {
    fn new(target: u32, wakes: u32, flag: &Rc<RefCell<WakeFlag>>) -> Countdown {
        Countdown { polls: 0, target, wakes, flag: flag.clone() }
    }
}

impl Future for Countdown {
    type Output = u32;

    fn poll(mut self: Pin<&mut Self>, cx: &mut Context<'_>) -> Poll<u32> {
        self.polls += 1;
        if self.polls >= self.target {
            Poll::Ready(self.polls)
        } else {
            for _ in 0..self.wakes {
                self.flag.borrow_mut().wake();
            }
            cx.waker().wake_by_ref();
            Poll::Pending
        }
    }
}

/// Drives a future with the library's decisions and returns the value and the
/// number of polls. A parked driver takes the pending wake from `flag`; where
/// there is none it would block for ever, and the test fails.
fn drive<F: Future>(future: F, mut driver: Driver, flag: &Rc<RefCell<WakeFlag>>) -> (F::Output, u32) {
    let mut pinned = Box::pin(future);
    let mut polls: u32 = 0;
    loop {
        polls += 1;
        match driver.after_poll(poll_once(pinned.as_mut())) {
            Step::Finish(v) => return (v, polls),
            Step::Spin => driver.resume(),
            Step::Park => {
                assert!(flag.borrow_mut().wait(), "the parked driver would never wake");
                driver.resume();
            }
        }
    }
}

fn new_flag() -> Rc<RefCell<WakeFlag>> {
    Rc::new(RefCell::new(WakeFlag::new()))
}

#[test]
fn assert_send_sync() {
    require_send_sync::<SpinRuntime>();
    require_send_sync::<SleepRuntime>();
    require_send_sync::<SpawnRuntime>();
}

#[test]
fn poll_once_test() {
    let f = PendForever;
    let mut pinned = Box::pin(f);
    let result = poll_once(pinned.as_mut());
    assert_eq!(result, Poll::Pending);

    let result2 = poll_once(pinned.as_mut());
    assert_eq!(result2, Poll::Pending);
}

#[test]
fn poll_once_pin_ready_value() {
    assert_eq!(poll_once_pin(async { 42 }), Poll::Ready(42));
}

#[test]
fn poll_once_pin_pend_forever() {
    assert_eq!(poll_once_pin(PendForever::default()), Poll::Pending);
}

#[test]
fn poll_once_counts_polls() {
    let mut pinned = Box::pin(Countdown::new(3, 0, &new_flag()));
    assert_eq!(poll_once(pinned.as_mut()), Poll::Pending);
    assert_eq!(poll_once(pinned.as_mut()), Poll::Pending);
    assert_eq!(poll_once(pinned.as_mut()), Poll::Ready(3));
}

#[test]
fn noop_context_discards_wakes() {
    let cx = new_context();
    cx.waker().wake_by_ref();
    cx.waker().clone().wake();
    let mut pinned = Box::pin(PendForever);
    assert_eq!(poll_once(pinned.as_mut()), Poll::Pending);
}

#[test]
fn busy_driver_returns_value() {
    let (v, polls) = drive(async { 21 * 2 }, Driver::busy(), &new_flag());
    assert_eq!(v, 42);
    assert_eq!(polls, 1);
}

#[test]
fn parked_driver_returns_poll_count_four() {
    let flag = new_flag();
    let (v, polls) = drive(Countdown::new(4, 1, &flag), Driver::parked(), &flag);
    assert_eq!(v, 4);
    assert_eq!(polls, 4);
}

#[test]
fn parked_driver_returns_three() {
    let flag = new_flag();
    let (v, polls) = drive(Countdown::new(3, 1, &flag), Driver::parked(), &flag);
    assert_eq!(v, 3);
    assert_eq!(polls, 3);
}

#[test]
fn reentrant_wake_repolls() {
    let flag = new_flag();
    let (v, polls) = drive(Countdown::new(2, 1, &flag), Driver::parked(), &flag);
    assert_eq!(v, 2);
    assert_eq!(polls, 2);
    assert!(!flag.borrow().is_raised());
}

#[test]
fn many_wakes_one_more_poll() {
    let flag = new_flag();
    let mut pinned = Box::pin(Countdown::new(2, 5, &flag));
    let mut driver = Driver::parked();
    assert_eq!(driver.after_poll(poll_once(pinned.as_mut())), Step::Park);
    assert!(flag.borrow_mut().wait());
    assert!(!flag.borrow_mut().wait());
    assert!(flag.borrow_mut().wake());
    driver.resume();
    assert_eq!(driver.after_poll(poll_once(pinned.as_mut())), Step::Finish(2));
}

#[test]
fn busy_and_parked_agree() {
    let busy_flag = new_flag();
    let parked_flag = new_flag();
    let (a, pa) = drive(Countdown::new(5, 0, &busy_flag), Driver::busy(), &busy_flag);
    let (b, pb) = drive(Countdown::new(5, 2, &parked_flag), Driver::parked(), &parked_flag);
    assert_eq!(a, 5);
    assert_eq!(a, b);
    assert_eq!(pa, pb);
}

#[test]
fn driver_steps() {
    let mut d = Driver::busy();
    assert_eq!(d.after_poll::<u8>(Poll::Pending), Step::Spin);
    assert_eq!(d.phase, Phase::Suspended);
    d.resume();
    assert_eq!(d.phase, Phase::Polling);
    assert_eq!(d.after_poll(Poll::Ready(7u8)), Step::Finish(7));
    assert!(d.is_complete());

    let mut p = Driver::parked();
    assert_eq!(p.strategy, Strategy::Parked);
    assert!(!p.is_complete());
    assert_eq!(p.after_poll::<u8>(Poll::Pending), Step::Park);
    assert_eq!(p.phase, Phase::Suspended);
}

#[test]
fn wakes_coalesce() {
    let mut flag = WakeFlag::new();
    assert!(!flag.wake());
    assert!(!flag.wake());
    assert!(!flag.wake());
    assert!(flag.wait());
    assert!(!flag.wait());
    assert!(flag.is_waiting());
}

#[test]
fn wake_before_wait_is_seen() {
    let mut flag = WakeFlag::new();
    assert!(!flag.is_raised());
    flag.wake();
    assert!(flag.is_raised());
    assert!(flag.wait());
    assert!(!flag.is_raised());
    assert!(!flag.is_waiting());
}

#[test]
fn wake_during_wait_releases_it() {
    let mut flag = WakeFlag::new();
    assert!(!flag.wait());
    assert!(flag.is_waiting());
    assert!(flag.wake());
    assert!(!flag.is_waiting());
    assert!(!flag.is_raised());
}

#[test]
fn runtime_names_and_defaults() {
    assert_eq!(SpinRuntime::new().to_string(), "SpinRuntime");
    assert_eq!(SleepRuntime::new().to_string(), "SleepRuntime");
    assert_eq!(SpawnRuntime::new().to_string(), "SpawnRuntime");
    assert_eq!(SpinRuntime::default(), SpinRuntime::new());
    assert_eq!(SleepRuntime::default(), SleepRuntime::new());
    assert_eq!(SpawnRuntime::default(), SpawnRuntime::new());
}
