//! Reading a single value out of an R vector. A vector holds a scalar when it
//! has exactly one element and that element is not `NA`.

use vstd::prelude::*;
use crate::error::Error;
use crate::sexp::na::NA_INTEGER;

verus! {

/// The integer of a length-one integer vector that is not `NA`.
pub fn i32_try_from_values(values: &[i32]) -> (r: Result<i32, Error>)
    ensures
        values@.len() == 1 && values@[0] != NA_INTEGER ==> r == Ok::<i32, Error>(values@[0]),
        !(values@.len() == 1 && values@[0] != NA_INTEGER) ==> r matches Err(Error::NotScalar),
{
    if values.len() != 1 {
        return Err(Error::NotScalar);
    }
    let result = values[0];
    if result == NA_INTEGER {
        return Err(Error::NotScalar);
    }
    Ok(result)
}

/// The Boolean of a length-one logical vector that is not `NA`.
pub fn bool_try_from_values(raw: &[i32]) -> (r: Result<bool, Error>)
    ensures
        raw@.len() == 1 && raw@[0] != NA_INTEGER ==> r == Ok::<bool, Error>(raw@[0] == 1),
        !(raw@.len() == 1 && raw@[0] != NA_INTEGER) ==> r matches Err(Error::NotScalar),
{
    if raw.len() != 1 {
        return Err(Error::NotScalar);
    }
    let result_int = raw[0];
    if result_int == NA_INTEGER {
        return Err(Error::NotScalar);
    }
    Ok(result_int == 1)
}

/// The byte of a length-one raw vector (a raw vector has no `NA`).
pub fn u8_try_from_values(values: &[u8]) -> (r: Result<u8, Error>)
    ensures
        values@.len() == 1 ==> r == Ok::<u8, Error>(values@[0]),
        values@.len() != 1 ==> r matches Err(Error::NotScalar),
{
    if values.len() != 1 {
        return Err(Error::NotScalar);
    }
    Ok(values[0])
}

/// The non-negative integer of a length-one integer vector that is not `NA`.
pub fn usize_try_from_values(values: &[i32]) -> (r: Result<usize, Error>)
    ensures
        values@.len() == 1 && values@[0] != NA_INTEGER && values@[0] >= 0 ==> r == Ok::<
            usize,
            Error,
        >(values@[0] as usize),
        !(values@.len() == 1 && values@[0] != NA_INTEGER) ==> r matches Err(Error::NotScalar),
        values@.len() == 1 && values@[0] != NA_INTEGER && values@[0] < 0 ==> (r matches Err(e)
            && e is GeneralError && e->GeneralError_0@ == crate::sexp::numeric::OUT_OF_RANGE_MESSAGE@),
{
    let value = i32_try_from_values(values)?;
    if value < 0 {
        return Err(Error::GeneralError(String::from_str(crate::sexp::numeric::OUT_OF_RANGE_MESSAGE)));
    }
    Ok(value as usize)
}

/// The string of a length-one character vector that is not `NA`.
pub fn str_try_from_values(values: &[Option<String>]) -> (r: Result<String, Error>)
    ensures
        values@.len() == 1 && values@[0] is Some ==> (r matches Ok(s) && s@ == values@[0]->0@),
        !(values@.len() == 1 && values@[0] is Some) ==> r matches Err(Error::NotScalar),
{
    if values.len() != 1 {
        return Err(Error::NotScalar);
    }
    match &values[0] {
        Some(s) => Ok(s.clone()),
        None => Err(Error::NotScalar),
    }
}

} // verus!
