use rcurs::{
    allocate, check_release, check_take, free, panic_ref_count_overflow, Inner, RefCountOverflow,
    Refs, REF_COUNT_MAX,
};

#[test]
fn take_at_maximum_is_fatal() {
    assert_eq!(check_take(usize::MAX), Err(RefCountOverflow));
    assert_eq!(check_take(REF_COUNT_MAX), Err(RefCountOverflow));
}

#[test]
fn take_below_maximum_is_fine() {
    assert_eq!(check_take(0), Ok(()));
    assert_eq!(check_take(1), Ok(()));
    assert_eq!(check_take(usize::MAX - 1), Ok(()));
}

#[test]
fn release_outcomes() {
    assert_eq!(check_release(0), Err(RefCountOverflow));
    assert_eq!(check_release(1), Ok(true));
    assert_eq!(check_release(2), Ok(false));
    assert_eq!(check_release(usize::MAX), Ok(false));
}

#[test]
fn overflow_report_message() {
    let e = panic_ref_count_overflow();
    assert_eq!(e, RefCountOverflow);
    assert_eq!(e.message(), "ref count overflowed");
}

#[test]
fn refs_start_at_one() {
    let r = Refs::one();
    assert_eq!(r.count(), 1);
}

#[test]
fn refs_take_and_release() {
    let r = Refs::one();
    assert_eq!(r.take_ref(), Ok(()));
    assert_eq!(r.count(), 2);
    assert_eq!(r.take_ref(), Ok(()));
    assert_eq!(r.count(), 3);
    assert_eq!(r.release_ref(), Ok(false));
    assert_eq!(r.count(), 2);
}

#[test]
fn last_release_frees_exactly_once() {
    // The cell's own hold plus two readers: three releases, and only the last
    // one reports that the value may be freed.
    let r = Refs::one();
    assert_eq!(r.take_ref(), Ok(()));
    assert_eq!(r.take_ref(), Ok(()));
    let outcomes = vec![r.release_ref(), r.release_ref(), r.release_ref()];
    assert_eq!(outcomes, vec![Ok(false), Ok(false), Ok(true)]);
    assert_eq!(r.count(), 0);
}

#[test]
fn release_with_no_holder_is_fatal() {
    let r = Refs::one();
    assert_eq!(r.release_ref(), Ok(true));
    assert_eq!(r.release_ref(), Err(RefCountOverflow));
}

#[test]
fn version_starts_with_one_holder() {
    let v = Inner::held_once(41);
    assert_eq!(v.data, 41);
    assert_eq!(v.refs.count(), 1);
    assert_eq!(v.refs.release_ref(), Ok(true));
}

#[test]
fn allocate_keeps_the_value() {
    let b = allocate(String::from("kept"));
    assert_eq!(*b, "kept");
    free(b);
    let n = allocate(7u64);
    assert_eq!(*n, 7);
}
