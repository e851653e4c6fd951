use vstd::prelude::*;

use core::sync::atomic::Ordering;
use portable_atomic::AtomicBool;

verus! {

/// An atomic flag of portable_atomic, opaque to proofs.
#[verifier::external_type_specification]
#[verifier::external_body]
pub struct ExAtomicBool(portable_atomic::AtomicBool);

/// Relies on portable_atomic::AtomicBool::new: a flag holding `v`.
#[verifier::external_body]
fn new_flag(v: bool) -> AtomicBool {
    AtomicBool::new(v)
}

/// Relies on portable_atomic::AtomicBool::compare_exchange: one atomic
/// comparison and store, which panics on a `Release` or `AcqRel` failure
/// ordering. On success the previous value equals `current`.
pub assume_specification[ portable_atomic::AtomicBool::compare_exchange ](
    flag: &AtomicBool,
    current: bool,
    new: bool,
    success: Ordering,
    failure: Ordering,
) -> (r: Result<bool, bool>)
    requires
        !(failure is Release),
        !(failure is AcqRel),
    ensures
        r is Ok ==> r->Ok_0 == current,
;

/// Relies on portable_atomic::AtomicBool::store, which panics on an
/// `Acquire` or `AcqRel` ordering.
pub assume_specification[ portable_atomic::AtomicBool::store ](
    flag: &AtomicBool,
    val: bool,
    order: Ordering,
)
    requires
        !(order is Acquire),
        !(order is AcqRel),
;

/// A lock that one thread at a time can hold, taken by polling one atomic flag.
pub struct Spinlock {
    locked: AtomicBool,
}

impl Spinlock {
    /// An unlocked lock.
    pub fn new() -> Spinlock {
        Spinlock { locked: new_flag(false) }
    }

    /// One attempt to take the lock: true when this call took it, false when
    /// another holder had it. A caller that wants the lock repeats the attempt.
    pub fn try_lock(&self) -> bool {
        let r = self.locked.compare_exchange(false, true, Ordering::Release, Ordering::Relaxed);
        r.is_ok()
    }

    /// Gives the lock back. Only its holder may call this.
    pub fn unlock(&self) {
        self.locked.store(false, Ordering::Release);
    }
}

} // verus!
