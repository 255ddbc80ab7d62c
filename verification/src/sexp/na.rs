//! R's missing values.
//!
//! R marks a missing integer, and a missing logical, with the smallest `i32`.
//! A logical vector stores `1` for `TRUE`, `0` for `FALSE` and that marker for
//! `NA`.

use vstd::prelude::*;

verus! {

/// R's `NA_integer_`, which is also the `NA` of a logical vector.
pub const NA_INTEGER: i32 = i32::MIN;

/// A type with a missing value.
pub trait NotAvailableValue: Sized {
    /// Whether the value is the missing value.
    fn is_na(&self) -> bool;

    /// The missing value.
    fn na() -> Self;
}

impl NotAvailableValue for i32 {
    fn is_na(&self) -> (b: bool)
        ensures
            b == (*self == NA_INTEGER),
    {
        *self == NA_INTEGER
    }

    fn na() -> (v: i32)
        ensures
            v == NA_INTEGER,
    {
        NA_INTEGER
    }
}

/// The integer that a logical vector stores for a Boolean.
pub open spec fn logical_raw(v: bool) -> i32 {
    if v { 1 } else { 0 }
}

/// The Boolean that a stored logical reads as: only `1` reads as `TRUE`, so
/// `NA` reads as `FALSE`.
pub open spec fn logical_value(raw: i32) -> bool {
    raw == 1
}

/// The integer that a logical vector stores for a Boolean.
pub fn bool_to_logical_raw(v: bool) -> (raw: i32)
    ensures
        raw == logical_raw(v),
{
    if v { 1 } else { 0 }
}

/// The Boolean that a stored logical reads as.
pub fn logical_raw_to_bool(raw: i32) -> (v: bool)
    ensures
        v == logical_value(raw),
{
    raw == 1
}

/// A Boolean stored in a logical vector reads back as itself, and is never `NA`.
pub proof fn law_logical_roundtrip(v: bool)
    ensures
        logical_value(logical_raw(v)) == v,
        logical_raw(v) != NA_INTEGER,
{
}

} // verus!
