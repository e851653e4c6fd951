//! A read-copy-update toolkit: the reference counter that decides when a
//! retired value may be freed, with the laws of that protocol; notifiers
//! that let a thread wait for another; and a spinlock's single steps.

mod blocking;
mod notify;
mod reclaim;
mod refs;
mod spinlock;
mod version;

pub use crate::blocking::{lemma_notification_reaches_all, Blocking, TooManyWaiters, WaitState};
pub use crate::notify::{Notify, Spin, Yield};
pub use crate::reclaim::{
    count_after, count_before, frees_at, lemma_free_only_without_holders, lemma_freed_exactly_once,
    valid_run, RefEvent,
};
pub use crate::refs::{
    check_release, check_take, panic_ref_count_overflow, release_outcome, take_outcome,
    RefCountOverflow, Refs, REF_COUNT_MAX,
};
pub use crate::spinlock::Spinlock;
pub use crate::version::{allocate, free, Inner};
