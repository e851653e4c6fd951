use rcurs::{Blocking, Notify, Spin, Spinlock, TooManyWaiters, WaitState, Yield};

#[test]
fn spin_is_marked_by_notify() {
    let n = Spin::new();
    assert!(!n.notified());
    n.notify();
    assert!(n.notified());
    n.notify();
    assert!(n.notified());
}

#[test]
fn yield_is_marked_by_notify() {
    let n = Yield::new();
    assert!(!n.notified());
    n.notify();
    assert!(n.notified());
}

#[test]
fn blocking_wait_after_notify_returns() {
    let n = Blocking::new();
    n.notify();
    assert_eq!(n.wait(), Ok(()));
}

#[test]
fn blocking_default_is_fresh() {
    let n = Blocking::default();
    n.notify();
    assert_eq!(n.wait(), Ok(()));
}

#[test]
fn wait_state_fresh() {
    let s = WaitState::fresh();
    assert_eq!(s, WaitState { notified: false, waiters: 0 });
    assert!(s.must_sleep());
}

#[test]
fn wait_state_round() {
    // Two waiters, one before and one after the notification: both are let
    // go, and the last to leave resets the flag.
    let s = WaitState::fresh().enter().unwrap();
    assert_eq!(s, WaitState { notified: false, waiters: 1 });
    let s = s.signal();
    assert!(!s.must_sleep());
    let s = s.enter().unwrap();
    assert_eq!(s, WaitState { notified: true, waiters: 2 });
    assert!(!s.must_sleep());
    let s = s.leave();
    assert_eq!(s, WaitState { notified: true, waiters: 1 });
    assert!(!s.must_sleep());
    let s = s.leave();
    assert_eq!(s, WaitState { notified: false, waiters: 0 });
    assert!(s.must_sleep());
}

#[test]
fn wait_state_no_wake_without_notify() {
    let s = WaitState::fresh().enter().unwrap().enter().unwrap();
    assert!(s.must_sleep());
    let s = s.leave();
    assert_eq!(s, WaitState { notified: false, waiters: 1 });
    assert!(s.must_sleep());
}

#[test]
fn wait_state_full() {
    let s = WaitState { notified: false, waiters: 254 };
    assert_eq!(s.enter(), Some(WaitState { notified: false, waiters: 255 }));
    let full = WaitState { notified: true, waiters: 255 };
    assert_eq!(full.enter(), None);
    let _ = TooManyWaiters;
}

#[test]
fn wait_state_leave_without_waiters() {
    let s = WaitState { notified: true, waiters: 0 };
    assert_eq!(s.leave(), s);
}

#[test]
fn spinlock_one_holder() {
    let l = Spinlock::new();
    assert!(l.try_lock());
    assert!(!l.try_lock());
    l.unlock();
    assert!(l.try_lock());
    l.unlock();
}
