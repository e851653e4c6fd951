use vstd::prelude::*;

use crate::refs::Refs;

verus! {

/// One value installed in a cell, with the count of the holders that pin it.
pub struct Inner<T> {
    /// The number of live references to this value.
    pub refs: Refs,
    /// The value.
    pub data: T,
}

impl<T> Inner<T> {
    /// A version of `data` held by its creator alone.
    pub fn held_once(data: T) -> (r: Inner<T>)
        ensures
            r.data == data,
    {
        Inner { refs: Refs::one(), data }
    }
}

/// Moves `x` into a heap allocation of its own.
pub fn allocate<T>(x: T) -> (r: Box<T>)
    ensures
        *r == x,
{
    Box::new(x)
}

/// Tears down a heap allocation and the value in it.
pub fn free<T>(x: Box<T>) {
    let _owned: Box<T> = x;
}

} // verus!
