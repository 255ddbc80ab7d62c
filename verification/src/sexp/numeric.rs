//! Conversions of R integers.

use vstd::prelude::*;
use crate::error::Error;
use crate::sexp::na::NA_INTEGER;

verus! {

/// The message of `std::num::TryFromIntError`, which a conversion of a
/// negative integer to `usize` raises.
pub const OUT_OF_RANGE_MESSAGE: &'static str = "out of range integral type conversion attempted";

/// Converts an R integer to `usize`. `NA` and negative integers are refused.
pub fn try_cast_i32_to_usize(i: i32) -> (r: Result<usize, Error>)
    ensures
        i != NA_INTEGER && i >= 0 <==> r is Ok,
        r matches Ok(u) ==> u == i,
        i == NA_INTEGER ==> (r matches Err(e) && e is GeneralError && e->GeneralError_0@
            == "cannot convert NA to usize"@),
        i != NA_INTEGER && i < 0 ==> (r matches Err(e) && e is GeneralError && e->GeneralError_0@
            == OUT_OF_RANGE_MESSAGE@),
{
    if i == NA_INTEGER {
        Err(Error::GeneralError(String::from_str("cannot convert NA to usize")))
    } else if i < 0 {
        Err(Error::GeneralError(String::from_str(OUT_OF_RANGE_MESSAGE)))
    } else {
        Ok(i as usize)
    }
}

} // verus!
