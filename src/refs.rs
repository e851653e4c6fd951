use vstd::prelude::*;

use core::sync::atomic::Ordering;
use portable_atomic::AtomicUsize;

verus! {

/// The largest count a [`Refs`] may hold before taking one more reference is fatal.
pub const REF_COUNT_MAX: usize = usize::MAX;

/// The fatal report of a reference count that left its range: a reference
/// taken while the count was at its maximum, or released while it was zero.
#[derive(Debug, Clone, Copy, PartialEq, Eq, Structural)]
pub struct RefCountOverflow;

impl RefCountOverflow {
    /// The diagnostic printed when the count overflows.
    pub fn message(&self) -> (r: &'static str)
        ensures
            r@ == "ref count overflowed"@,
    {
        "ref count overflowed"
    }
}

/// Builds the report of a count that left its range; the caller aborts with it.
pub fn panic_ref_count_overflow() -> (e: RefCountOverflow)
    ensures
        e == RefCountOverflow,
{
    RefCountOverflow
}

/// What taking a reference means when the count stood at `prev` just before.
pub open spec fn take_outcome(prev: usize) -> Result<(), RefCountOverflow> {
    if prev == REF_COUNT_MAX {
        Err(RefCountOverflow)
    } else {
        Ok(())
    }
}

/// What releasing a reference means when the count stood at `prev` just
/// before: `Ok(true)` for the last holder, `Ok(false)` while others remain,
/// and a fatal report for a release with no holder at all.
pub open spec fn release_outcome(prev: usize) -> Result<bool, RefCountOverflow> {
    if prev == 0 {
        Err(RefCountOverflow)
    } else {
        Ok(prev == 1)
    }
}

/// Judges an increment from the count it observed before adding one.
pub fn check_take(prev: usize) -> (r: Result<(), RefCountOverflow>)
    ensures
        r == take_outcome(prev),
        r is Err <==> prev == REF_COUNT_MAX,
{
    if prev == REF_COUNT_MAX {
        Err(panic_ref_count_overflow())
    } else {
        Ok(())
    }
}

/// Judges a decrement from the count it observed before subtracting one.
pub fn check_release(prev: usize) -> (r: Result<bool, RefCountOverflow>)
    ensures
        r == release_outcome(prev),
        r == Ok::<bool, RefCountOverflow>(true) <==> prev == 1,
        r is Err <==> prev == 0,
{
    if prev == 1 {
        Ok(true)
    } else if prev == 0 {
        Err(panic_ref_count_overflow())
    } else {
        Ok(false)
    }
}

/// An atomic counter of portable_atomic, opaque to proofs: its value may
/// change under any shared reference.
#[verifier::external_type_specification]
#[verifier::external_body]
pub struct ExAtomicUsize(portable_atomic::AtomicUsize);

/// Relies on portable_atomic::AtomicUsize::new: an atomic counter holding `v`.
#[verifier::external_body]
fn new_counter(v: usize) -> AtomicUsize {
    AtomicUsize::new(v)
}

/// Relies on portable_atomic::AtomicUsize::fetch_add: one atomic increment
/// (wrapping), returning the count seen just before it. Other threads may
/// act on the counter at any time, so nothing is said of that count here.
pub assume_specification[ portable_atomic::AtomicUsize::fetch_add ](
    atomic: &AtomicUsize,
    val: usize,
    order: Ordering,
) -> usize;

/// Relies on portable_atomic::AtomicUsize::fetch_sub: one atomic decrement
/// (wrapping), returning the count seen just before it.
pub assume_specification[ portable_atomic::AtomicUsize::fetch_sub ](
    atomic: &AtomicUsize,
    val: usize,
    order: Ordering,
) -> usize;

/// Relies on portable_atomic::AtomicUsize::load, which panics on a `Release`
/// or `AcqRel` ordering.
pub assume_specification[ portable_atomic::AtomicUsize::load ](
    atomic: &AtomicUsize,
    order: Ordering,
) -> usize
    requires
        !(order is Release),
        !(order is AcqRel),
;

/// The number of live references to one shared value, kept in an atomic
/// counter so that any thread may take or release a reference through `&self`.
#[derive(Debug)]
pub struct Refs {
    refs: AtomicUsize,
}

impl Refs {
    /// A counter holding the one reference of its creator.
    pub fn one() -> (r: Refs) {
        Refs { refs: new_counter(1) }
    }

    /// The number of references at the moment of the read.
    pub fn count(&self) -> usize {
        self.refs.load(Ordering::Relaxed)
    }

    /// Adds one reference. The error comes exactly when the count was
    /// already at its maximum, which the caller must treat as fatal.
    pub fn take_ref(&self) -> (r: Result<(), RefCountOverflow>)
        ensures
            exists|prev: usize| r == take_outcome(prev),
    {
        let prev = self.refs.fetch_add(1, Ordering::Relaxed);
        check_take(prev)
    }

    /// Drops one reference. `Ok(true)` tells the caller that it released
    /// the last one and now owns the value alone; the error comes exactly
    /// when the count was already zero (a double release).
    pub fn release_ref(&self) -> (r: Result<bool, RefCountOverflow>)
        ensures
            exists|prev: usize| r == release_outcome(prev),
    {
        let prev = self.refs.fetch_sub(1, Ordering::Release);
        let r = check_release(prev);
        if prev == 1 {
            // Pairs with the releasing decrements of the other holders, so
            // that their writes are visible before the value is torn down.
            let _ = self.refs.load(Ordering::Acquire);
        }
        r
    }
}

} // verus!
