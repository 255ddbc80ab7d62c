//! External pointers: R objects that hold the address of a Rust value.

use vstd::prelude::*;
use crate::error::Error;

verus! {

/// Checks the address that an external pointer holds: a null address means
/// that the value was already consumed or deleted.
pub fn get_external_pointer_addr(addr: usize) -> (r: Result<usize, Error>)
    ensures
        addr == 0 ==> r matches Err(Error::InvalidPointer),
        addr != 0 ==> r == Ok::<usize, Error>(addr),
{
    if addr == 0 {
        return Err(Error::InvalidPointer);
    }
    Ok(addr)
}

} // verus!
