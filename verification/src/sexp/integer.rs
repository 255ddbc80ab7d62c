//! Integer vectors.

use vstd::prelude::*;
use crate::error::Error;
use crate::sexp::utils::assert_len;

verus! {

/// A newly created integer vector, owned by Rust until it is handed to R.
#[derive(Debug)]
pub struct OwnedIntegerSexp {
    data: Vec<i32>,
}

impl View for OwnedIntegerSexp {
    type V = Seq<i32>;

    closed spec fn view(&self) -> Seq<i32> {
        self.data@
    }
}

impl OwnedIntegerSexp {
    /// Creates a vector of `len` zeros.
    pub fn new(len: usize) -> (r: Result<Self, Error>)
        ensures
            r matches Ok(v) && v@ == Seq::new(len as nat, |i: int| 0i32),
    {
        let mut data: Vec<i32> = Vec::new();
        let mut i: usize = 0;
        while i < len
            invariant
                i <= len,
                data@ == Seq::new(i as nat, |j: int| 0i32),
            decreases len - i,
        {
            data.push(0);
            i = i + 1;
            assert(data@ =~= Seq::new(i as nat, |j: int| 0i32));
        }
        Ok(OwnedIntegerSexp { data })
    }

    /// Creates a vector of `len` elements, to be filled by the caller. (The
    /// elements are zeros.)
    pub fn new_without_init(len: usize) -> (r: Result<Self, Error>)
        ensures
            r matches Ok(v) && v@ == Seq::new(len as nat, |i: int| 0i32),
    {
        Self::new(len)
    }

    /// The number of elements.
    pub fn len(&self) -> (n: usize)
        ensures
            n == self@.len(),
    {
        self.data.len()
    }

    /// Whether the vector has no element.
    pub fn is_empty(&self) -> (b: bool)
        ensures
            b == (self@.len() == 0),
    {
        self.data.len() == 0
    }

    /// The elements.
    pub fn as_slice(&self) -> (s: &[i32])
        ensures
            s@ == self@,
    {
        self.data.as_slice()
    }

    /// The elements, for writing.
    pub fn as_mut_slice(&mut self) -> (s: &mut [i32])
        ensures
            s@ == old(self)@,
            final(s)@ == final(self)@,
    {
        self.data.as_mut_slice()
    }

    /// A copy of the elements.
    pub fn to_vec(&self) -> (v: Vec<i32>)
        ensures
            v@ == self@,
    {
        vstd::slice::slice_to_vec(self.data.as_slice())
    }

    /// Sets the `i`-th element; an index past the end is refused.
    pub fn set_elt(&mut self, i: usize, v: i32) -> (r: Result<(), Error>)
        ensures
            i < old(self)@.len() <==> r is Ok,
            r is Ok ==> final(self)@ == old(self)@.update(i as int, v),
            r matches Err(e) ==> crate::sexp::utils::is_out_of_bounds_error(e, old(self)@.len() as usize, i)
                && final(self)@ == old(self)@,
    {
        assert_len(self.data.len(), i)?;
        self.data.set(i, v);
        Ok(())
    }

    /// Creates a vector with the elements of a slice.
    pub fn try_from_slice(x: &[i32]) -> (r: Result<Self, Error>)
        ensures
            r matches Ok(v) && v@ == x@,
    {
        Ok(OwnedIntegerSexp { data: vstd::slice::slice_to_vec(x) })
    }

    /// Creates a vector of one element.
    pub fn try_from_scalar(value: i32) -> (r: Result<Self, Error>)
        ensures
            r matches Ok(v) && v@ == seq![value],
    {
        let mut data: Vec<i32> = Vec::new();
        data.push(value);
        assert(data@ =~= seq![value]);
        Ok(OwnedIntegerSexp { data })
    }
}

} // verus!
