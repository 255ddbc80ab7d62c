//! The functions of the `unextendr` demonstration package of the
//! interface: they show how vectors from R are read and new ones are built,
//! with missing values carried through.

use vstd::prelude::*;
use crate::sexp::integer::OwnedIntegerSexp;
use crate::sexp::logical::OwnedLogicalSexp;
use crate::sexp::string::OwnedStringSexp;
use crate::sexp::na::NA_INTEGER;
use crate::error::Error;

verus! {

/// What `str::to_uppercase` gives for a text: each character mapped by the
/// uppercase rules of Unicode, which may change the number of characters.
pub uninterp spec fn uppercase(s: Seq<char>) -> Seq<char>;

/// Calls `str::to_uppercase`. Its result is a function of the text alone,
/// named `uppercase`; the Unicode tables it follows are not stated here.
#[verifier::external_body]
fn str_to_uppercase(s: &str) -> (r: String)
    ensures
        r@ == uppercase(s@),
{
    s.to_uppercase()
}

/// Upper-cases each string; `NA` stays `NA`.
pub fn to_upper_inner(x: &[Option<String>]) -> (r: Result<OwnedStringSexp, Error>)
    ensures
        r matches Ok(out) && out@.len() == x@.len() && forall|i: int|
            0 <= i < x@.len() ==> #[trigger] out@[i] == match x@[i] {
                Some(s) => Some(uppercase(s@)),
                None => None,
            },
{
    let mut out = OwnedStringSexp::new(x.len())?;
    let mut i: usize = 0;
    while i < x.len()
        invariant
            i <= x.len(),
            out@.len() == x@.len(),
            forall|j: int| 0 <= j < i ==> #[trigger] out@[j] == match x@[j] {
                Some(s) => Some(uppercase(s@)),
                None => None,
            },
        decreases x.len() - i,
    {
        match &x[i] {
            None => {
                let _ = out.set_na(i);
            },
            Some(e) => {
                let e_upper = str_to_uppercase(e.as_str());
                let _ = out.set_elt(i, e_upper.as_str());
            },
        }
        i = i + 1;
    }
    Ok(out)
}

/// Doubles each integer; `NA` stays `NA`. A doubled value must fit in an
/// R integer.
pub fn times_two_int_inner(x: &[i32]) -> (r: Result<OwnedIntegerSexp, Error>)
    requires
        forall|i: int|
            0 <= i < x@.len() && #[trigger] x@[i] != NA_INTEGER ==> i32::MIN <= 2 * x@[i]
                <= i32::MAX,
    ensures
        r matches Ok(out) && out@.len() == x@.len() && forall|i: int|
            0 <= i < x@.len() ==> #[trigger] out@[i] == if x@[i] == NA_INTEGER {
                NA_INTEGER
            } else {
                (2 * x@[i]) as i32
            },
{
    let mut out = OwnedIntegerSexp::new(x.len())?;
    let mut i: usize = 0;
    while i < x.len()
        invariant
            i <= x.len(),
            out@.len() == x@.len(),
            forall|j: int|
                0 <= j < x@.len() && #[trigger] x@[j] != NA_INTEGER ==> i32::MIN <= 2 * x@[j]
                    <= i32::MAX,
            forall|j: int| 0 <= j < i ==> #[trigger] out@[j] == if x@[j] == NA_INTEGER {
                NA_INTEGER
            } else {
                (2 * x@[j]) as i32
            },
        decreases x.len() - i,
    {
        let e = x[i];
        if e == NA_INTEGER {
            let _ = out.set_elt(i, NA_INTEGER);
        } else {
            let _ = out.set_elt(i, e * 2);
        }
        i = i + 1;
    }
    Ok(out)
}

/// Negates each logical, read as a Boolean: `NA` reads as `FALSE` and so
/// becomes `TRUE`.
pub fn flip_logical_inner(x: &[i32]) -> (r: Result<OwnedLogicalSexp, Error>)
    ensures
        r matches Ok(out) && out@.len() == x@.len() && forall|i: int|
            0 <= i < x@.len() ==> #[trigger] out@[i] == crate::sexp::na::logical_raw(
                !crate::sexp::na::logical_value(x@[i]),
            ),
{
    let mut out = OwnedLogicalSexp::new(x.len())?;
    let mut i: usize = 0;
    while i < x.len()
        invariant
            i <= x.len(),
            out@.len() == x@.len(),
            forall|j: int| 0 <= j < i ==> #[trigger] out@[j] == crate::sexp::na::logical_raw(
                !crate::sexp::na::logical_value(x@[j]),
            ),
        decreases x.len() - i,
    {
        let e = x[i] == 1;
        let _ = out.set_elt(i, !e);
        i = i + 1;
    }
    Ok(out)
}

} // verus!
