use vstd::prelude::*;

use std::sync::{Condvar, Mutex, MutexGuard, PoisonError};

use crate::notify::Notify;

verus! {

/// What the blocking notifier keeps under its lock: whether `notify` has
/// been called, and how many threads are waiting for it.
#[derive(Debug, Clone, Copy, PartialEq, Eq, Structural)]
pub struct WaitState {
    pub notified: bool,
    pub waiters: u8,
}

/// The error of a wait that found the count of waiters already full.
#[derive(Debug, Clone, Copy, PartialEq, Eq, Structural)]
pub struct TooManyWaiters;

impl WaitState {
    /// The state once one more waiter has registered.
    pub open spec fn entered(self) -> WaitState {
        WaitState { notified: self.notified, waiters: (self.waiters + 1) as u8 }
    }

    /// The state once one waiter has left. The last waiter to leave resets
    /// the flag, so the notifier is ready for another round.
    pub open spec fn left(self) -> WaitState {
        if self.waiters == 0 {
            self
        } else if self.waiters == 1 {
            WaitState { notified: false, waiters: 0 }
        } else {
            WaitState { notified: self.notified, waiters: (self.waiters - 1) as u8 }
        }
    }

    /// The state once `notify` has been called.
    pub open spec fn signalled(self) -> WaitState {
        WaitState { notified: true, waiters: self.waiters }
    }

    /// No notification and no waiter.
    pub fn fresh() -> (s: WaitState)
        ensures
            s == (WaitState { notified: false, waiters: 0 }),
    {
        WaitState { notified: false, waiters: 0 }
    }

    /// Registers one more waiter; `None` when the count is already full.
    pub fn enter(self) -> (r: Option<WaitState>)
        ensures
            self.waiters < u8::MAX ==> r == Some(self.entered()),
            self.waiters == u8::MAX ==> (r is None),
    {
        if self.waiters < u8::MAX {
            Some(WaitState { notified: self.notified, waiters: self.waiters + 1 })
        } else {
            None
        }
    }

    /// Whether a registered waiter must keep sleeping.
    pub fn must_sleep(&self) -> (r: bool)
        ensures
            r == !self.notified,
    {
        !self.notified
    }

    /// Unregisters one waiter.
    pub fn leave(self) -> (r: WaitState)
        ensures
            r == self.left(),
    {
        if self.waiters == 0 {
            self
        } else if self.waiters == 1 {
            WaitState { notified: false, waiters: 0 }
        } else {
            WaitState { notified: self.notified, waiters: self.waiters - 1 }
        }
    }

    /// Records a call of `notify`.
    pub fn signal(self) -> (r: WaitState)
        ensures
            r == self.signalled(),
    {
        WaitState { notified: true, waiters: self.waiters }
    }
}

/// How a notification reaches its waiters. No wake-up comes without a
/// notification: registering or leaving never raises the flag. A notification
/// lets every registered waiter go, is seen by a waiter that registers after
/// it, and stays up for the others while any waiter remains registered.
pub proof fn lemma_notification_reaches_all(s: WaitState)
    ensures
        !s.notified && s.waiters < u8::MAX ==> !s.entered().notified,
        !s.notified ==> !s.left().notified,
        s.signalled().notified,
        s.waiters < u8::MAX ==> s.signalled().entered().notified,
        s.notified && s.waiters > 1 ==> s.left().notified,
        s.waiters == 1 ==> s.left() == (WaitState { notified: false, waiters: 0 }),
{
}

/// The lock of std, holding a value that proofs do not see.
#[verifier::external_type_specification]
#[verifier::external_body]
#[verifier::reject_recursive_types(T)]
pub struct ExMutex<T: ?Sized>(Mutex<T>);

/// The guard of a held std lock.
#[verifier::external_type_specification]
#[verifier::external_body]
#[verifier::reject_recursive_types(T)]
pub struct ExMutexGuard<'a, T: ?Sized + 'a>(MutexGuard<'a, T>);

/// The condition variable of std.
#[verifier::external_type_specification]
#[verifier::external_body]
pub struct ExCondvar(Condvar);

/// Relies on std::sync::Mutex::new: an unlocked lock around `s`.
#[verifier::external_body]
fn new_lock(s: WaitState) -> Mutex<WaitState> {
    Mutex::new(s)
}

/// Relies on std::sync::Condvar::new: a condition variable with no waiter.
#[verifier::external_body]
fn new_condvar() -> Condvar {
    Condvar::new()
}

/// Relies on std::sync::Condvar::notify_all: wakes every thread blocked on it.
pub assume_specification[ Condvar::notify_all ](cv: &Condvar);

/// Relies on std::sync::Mutex::lock: blocks until the lock is held. A lock
/// poisoned by a panicking holder is taken all the same, since every update
/// of the state is a single write.
#[verifier::external_body]
fn lock_state(m: &Mutex<WaitState>) -> MutexGuard<'_, WaitState> {
    m.lock().unwrap_or_else(PoisonError::into_inner)
}

/// Relies on the `Deref` of std::sync::MutexGuard: a copy of the held state.
#[verifier::external_body]
fn read_state(g: &MutexGuard<'_, WaitState>) -> WaitState {
    **g
}

/// Relies on the `DerefMut` of std::sync::MutexGuard: overwrites the held state.
#[verifier::external_body]
fn write_state(g: &mut MutexGuard<'_, WaitState>, s: WaitState) {
    **g = s;
}

/// Relies on std::sync::Condvar::wait_while: releases the lock and sleeps
/// until woken with `must_sleep` false, then returns holding the lock again.
#[verifier::external_body]
fn sleep_while_unnotified<'a>(
    cv: &Condvar,
    g: MutexGuard<'a, WaitState>,
) -> MutexGuard<'a, WaitState> {
    cv.wait_while(g, |s| s.must_sleep()).unwrap_or_else(PoisonError::into_inner)
}

/// A notifier whose waiters sleep on a condition variable, for waits that
/// may be long.
pub struct Blocking {
    lock: Mutex<WaitState>,
    var: Condvar,
}

impl Blocking {
    /// Blocks until `notify` has been called. The last waiter to wake resets
    /// the notifier for the next round. Fails at once, without waiting, when
    /// the count of waiters is already full.
    pub fn wait(&self) -> Result<(), TooManyWaiters> {
        let mut guard = lock_state(&self.lock);
        match read_state(&guard).enter() {
            None => Err(TooManyWaiters),
            Some(s) => {
                write_state(&mut guard, s);
                let mut guard = sleep_while_unnotified(&self.var, guard);
                let after = read_state(&guard).leave();
                write_state(&mut guard, after);
                Ok(())
            },
        }
    }
}

impl Notify for Blocking {
    fn new() -> Self {
        Blocking { lock: new_lock(WaitState::fresh()), var: new_condvar() }
    }

    fn notify(&self) {
        let mut guard = lock_state(&self.lock);
        let s = read_state(&guard).signal();
        write_state(&mut guard, s);
        self.var.notify_all();
    }
}

impl Default for Blocking {
    fn default() -> Self {
        Blocking::new()
    }
}

} // verus!
