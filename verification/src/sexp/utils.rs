//! Bounds checking.

use vstd::prelude::*;
use crate::error::Error;
use crate::text::{concat, usize_to_string};

verus! {

/// The message of an index past the end of a vector.
pub open spec fn out_of_bounds_message(len: usize, i: usize) -> Seq<char> {
    "index out of bounds: the length is "@ + crate::text::decimal(len as nat) + " but the index is "@
        + crate::text::decimal(i as nat)
}

/// The error for an index past the end of a vector.
pub open spec fn is_out_of_bounds_error(e: Error, len: usize, i: usize) -> bool {
    e is GeneralError && e->GeneralError_0@ == out_of_bounds_message(len, i)
}

/// Checks that `i` indexes a vector of length `len`.
pub fn assert_len(len: usize, i: usize) -> (r: Result<(), Error>)
    ensures
        i < len <==> r is Ok,
        r matches Err(e) ==> is_out_of_bounds_error(e, len, i),
{
    if i >= len {
        let l = usize_to_string(len);
        let k = usize_to_string(i);
        let msg = concat(
            &["index out of bounds: the length is ", l.as_str(), " but the index is ", k.as_str()],
        );
        proof {
            reveal_with_fuel(crate::text::concat_spec, 5);
        }
        Err(Error::GeneralError(msg))
    } else {
        Ok(())
    }
}

/// The dimensions that an R `dim` attribute holds, as `usize`; each integer
/// is converted with `as`.
pub fn dim_from_i32(dims: &[i32]) -> (out: Vec<usize>)
    ensures
        out@.len() == dims@.len(),
        forall|i: int| 0 <= i < dims@.len() ==> #[trigger] out@[i] == dims@[i] as usize,
{
    let mut out: Vec<usize> = Vec::new();
    let mut i: usize = 0;
    while i < dims.len()
        invariant
            i <= dims.len(),
            out@.len() == i,
            forall|j: int| 0 <= j < i ==> #[trigger] out@[j] == dims@[j] as usize,
        decreases dims.len() - i,
    {
        out.push(dims[i] as usize);
        i = i + 1;
    }
    out
}

/// The integers that an R `dim` attribute stores for dimensions; each is
/// converted with `as`.
pub fn dim_to_i32(dims: &[usize]) -> (out: Vec<i32>)
    ensures
        out@.len() == dims@.len(),
        forall|i: int| 0 <= i < dims@.len() ==> #[trigger] out@[i] == dims@[i] as i32,
{
    let mut out: Vec<i32> = Vec::new();
    let mut i: usize = 0;
    while i < dims.len()
        invariant
            i <= dims.len(),
            out@.len() == i,
            forall|j: int| 0 <= j < i ==> #[trigger] out@[j] == dims@[j] as i32,
        decreases dims.len() - i,
    {
        out.push(dims[i] as i32);
        i = i + 1;
    }
    out
}

} // verus!
