use vstd::prelude::*;

use core::sync::atomic::{AtomicBool, Ordering};

verus! {

/// A one-shot wake-up shared between threads: `notify` marks it, and waiters
/// observe the mark. The notifiers are interchangeable; which one a caller
/// uses decides how a waiter passes the time until the mark appears.
pub trait Notify: Sized {
    /// A notifier that has not been notified.
    fn new() -> Self;

    /// Marks the notifier and lets every waiter go. Never blocks.
    fn notify(&self);
}

/// A notifier whose waiters spin in place, polling its flag with a CPU hint
/// between reads.
pub struct Spin {
    wants_wake: AtomicBool,
}

impl Spin {
    /// Whether `notify` has been called: one poll of the flag.
    pub fn notified(&self) -> bool {
        self.wants_wake.load(Ordering::Relaxed)
    }
}

impl Notify for Spin {
    fn new() -> Self {
        Spin { wants_wake: AtomicBool::new(false) }
    }

    fn notify(&self) {
        self.wants_wake.store(true, Ordering::Relaxed);
    }
}

/// A notifier whose waiters hand the rest of their time slice back to the
/// scheduler between polls of its flag.
pub struct Yield {
    wants_wake: AtomicBool,
}

impl Yield {
    /// Whether `notify` has been called: one poll of the flag.
    pub fn notified(&self) -> bool {
        self.wants_wake.load(Ordering::Relaxed)
    }
}

impl Notify for Yield {
    fn new() -> Self {
        Yield { wants_wake: AtomicBool::new(false) }
    }

    fn notify(&self) {
        self.wants_wake.store(true, Ordering::Relaxed);
    }
}

} // verus!
