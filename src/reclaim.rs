use vstd::prelude::*;

use crate::refs::{release_outcome, take_outcome, RefCountOverflow, REF_COUNT_MAX};

verus! {

/// One action on a shared value's reference counter, in the order in which
/// the atomic read-modify-write operations took effect.
#[derive(Debug, Clone, Copy, PartialEq, Eq, Structural)]
pub enum RefEvent {
    /// A reader pinned the value.
    Take,
    /// A holder (a reader, or the cell at retirement) let it go.
    Release,
}

/// The count just before event `i` of `events`, starting from `start`.
pub open spec fn count_before(start: int, events: Seq<RefEvent>, i: int) -> int
    decreases i,
{
    if i <= 0 {
        start
    } else {
        match events[i - 1] {
            RefEvent::Take => count_before(start, events, i - 1) + 1,
            RefEvent::Release => count_before(start, events, i - 1) - 1,
        }
    }
}

/// The count once every event of `events` took effect.
pub open spec fn count_after(start: int, events: Seq<RefEvent>) -> int {
    count_before(start, events, events.len() as int)
}

/// A run of the protocol: every event is made by a holder of the value (the
/// count is positive before it), and no event is a fatal one: no take at the
/// maximum count.
pub open spec fn valid_run(start: int, events: Seq<RefEvent>) -> bool {
    &&& 1 <= start <= REF_COUNT_MAX
    &&& forall|i: int|
        #![trigger count_before(start, events, i)]
        0 <= i < events.len() ==> {
            &&& 1 <= count_before(start, events, i)
            &&& (events[i] == RefEvent::Take ==> take_outcome(
                count_before(start, events, i) as usize,
            ) == Ok::<(), RefCountOverflow>(()))
        }
}

/// Event `i` is the release that reports the last holder, which frees the value.
pub open spec fn frees_at(start: int, events: Seq<RefEvent>, i: int) -> bool {
    &&& 0 <= i < events.len()
    &&& events[i] == RefEvent::Release
    &&& release_outcome(count_before(start, events, i) as usize) == Ok::<bool, RefCountOverflow>(true)
}

proof fn lemma_count_in_range(start: int, events: Seq<RefEvent>, i: int)
    requires
        valid_run(start, events),
        0 <= i <= events.len(),
    ensures
        0 <= count_before(start, events, i) <= REF_COUNT_MAX,
    decreases i,
{
    if i > 0 {
        lemma_count_in_range(start, events, i - 1);
        assert(1 <= count_before(start, events, i - 1));
        if events[i - 1] == RefEvent::Take {
            assert(take_outcome(count_before(start, events, i - 1) as usize) == Ok::<
                (),
                RefCountOverflow,
            >(()));
        }
    }
}

/// No premature reclamation: in a run of the protocol, the release that frees
/// the value is the last event of the run and leaves no holder behind, so no
/// reader can still be pinning the value when it is torn down.
pub proof fn lemma_free_only_without_holders(start: int, events: Seq<RefEvent>, i: int)
    requires
        valid_run(start, events),
        frees_at(start, events, i),
    ensures
        i == events.len() - 1,
        count_after(start, events) == 0,
        count_before(start, events, i + 1) == 0,
{
    lemma_count_in_range(start, events, i);
    assert(count_before(start, events, i) == 1);
    assert(count_before(start, events, i + 1) == 0);
    if i + 1 < events.len() {
        assert(1 <= count_before(start, events, i + 1));
    }
}

/// Exactly-once reclamation: however the writer's retirement and the readers'
/// releases interleave, at most one release of a run frees the value, and once
/// every holder has released it, one release has.
pub proof fn lemma_freed_exactly_once(start: int, events: Seq<RefEvent>)
    requires
        valid_run(start, events),
    ensures
        forall|i: int, j: int|
            frees_at(start, events, i) && frees_at(start, events, j) ==> i == j,
        count_after(start, events) == 0 <==> exists|i: int| frees_at(start, events, i),
{
    assert forall|i: int, j: int|
        frees_at(start, events, i) && frees_at(start, events, j) implies i == j by {
        lemma_free_only_without_holders(start, events, i);
        lemma_free_only_without_holders(start, events, j);
    }
    if count_after(start, events) == 0 {
        let n = events.len() as int;
        assert(n > 0);
        let k = n - 1;
        lemma_count_in_range(start, events, k);
        assert(1 <= count_before(start, events, k));
        assert(events[k] == RefEvent::Release);
        assert(count_before(start, events, k) == 1);
        assert(frees_at(start, events, k));
    }
    if exists|i: int| frees_at(start, events, i) {
        let i = choose|i: int| frees_at(start, events, i);
        lemma_free_only_without_holders(start, events, i);
    }
}

} // verus!
