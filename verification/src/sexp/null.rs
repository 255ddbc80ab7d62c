//! R's `NULL`.

use vstd::prelude::*;
use crate::protect::NIL;

verus! {

/// A value that stands for `NULL`, the result of a function that returns nothing.
pub struct NullSexp;

/// `NULL` under the name that the `unextendr` API gives it.
pub struct NullSxp;

/// The handle of `NULL`.
pub fn null() -> (h: usize)
    ensures
        h == NIL,
{
    NIL
}

impl NullSexp {
    /// The handle of `NULL`.
    pub fn inner(&self) -> (h: usize)
        ensures
            h == NIL,
    {
        NIL
    }
}

impl NullSxp {
    /// The handle of `NULL`.
    pub fn inner(&self) -> (h: usize)
        ensures
            h == NIL,
    {
        NIL
    }
}

} // verus!
