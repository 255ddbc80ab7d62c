//! Raw (byte) vectors.

use vstd::prelude::*;
use crate::error::Error;
use crate::sexp::utils::assert_len;

verus! {

/// The bytes of the vector that a conversion from an iterator gives, or
/// `None` where it fails. The iterator yields `items`; `hint` is the upper
/// bound of its `size_hint()`, used as the length to allocate first. An item
/// past that bound is refused.
pub open spec fn raw_from_iter_outcome(hint: Option<usize>, items: Seq<u8>) -> Option<Seq<u8>> {
    match hint {
        Some(upper) => if items.len() > upper { None } else { Some(items) },
        None => Some(items),
    }
}

/// A newly created raw vector, owned by Rust until it is handed to R.
#[derive(Debug)]
pub struct OwnedRawSexp {
    data: Vec<u8>,
}

impl View for OwnedRawSexp {
    type V = Seq<u8>;

    closed spec fn view(&self) -> Seq<u8> {
        self.data@
    }
}

impl OwnedRawSexp {
    /// Creates a vector of `len` zeros.
    pub fn new(len: usize) -> (r: Result<Self, Error>)
        ensures
            r matches Ok(v) && v@ == Seq::new(len as nat, |i: int| 0u8),
    {
        let mut data: Vec<u8> = Vec::new();
        let mut i: usize = 0;
        while i < len
            invariant
                i <= len,
                data@ == Seq::new(i as nat, |j: int| 0u8),
            decreases len - i,
        {
            data.push(0);
            i = i + 1;
            assert(data@ =~= Seq::new(i as nat, |j: int| 0u8));
        }
        Ok(OwnedRawSexp { data })
    }

    /// Creates a vector of `len` bytes whose values are left to the caller to set.
    pub fn new_without_init(len: usize) -> (r: Result<Self, Error>)
        ensures
            r matches Ok(v) && v@.len() == len,
    {
        Self::new(len)
    }

    /// The number of elements.
    pub fn len(&self) -> (n: usize)
        ensures
            n == self@.len(),
    {
        self.data.len()
    }

    /// Whether the vector has no element.
    pub fn is_empty(&self) -> (b: bool)
        ensures
            b == (self@.len() == 0),
    {
        self.data.len() == 0
    }

    /// The bytes.
    pub fn as_slice(&self) -> (s: &[u8])
        ensures
            s@ == self@,
    {
        self.data.as_slice()
    }

    /// The bytes, for writing.
    pub fn as_mut_slice(&mut self) -> (s: &mut [u8])
        ensures
            s@ == old(self)@,
            final(s)@ == final(self)@,
    {
        self.data.as_mut_slice()
    }

    /// A copy of the bytes.
    pub fn to_vec(&self) -> (v: Vec<u8>)
        ensures
            v@ == self@,
    {
        vstd::slice::slice_to_vec(self.data.as_slice())
    }

    /// Sets the `i`-th byte; an index past the end is refused.
    pub fn set_elt(&mut self, i: usize, v: u8) -> (r: Result<(), Error>)
        ensures
            i < old(self)@.len() <==> r is Ok,
            r is Ok ==> final(self)@ == old(self)@.update(i as int, v),
            r matches Err(e) ==> crate::sexp::utils::is_out_of_bounds_error(e, old(self)@.len() as usize, i)
                && final(self)@ == old(self)@,
    {
        assert_len(self.data.len(), i)?;
        self.data.set(i, v);
        Ok(())
    }

    /// Creates a vector from the items of an iterator. `hint` is the upper
    /// bound of the iterator's `size_hint()`; where there is one, it is the
    /// length allocated first, an item past it is refused, and a shorter
    /// result is copied into a vector of the right length.
    pub fn try_from_iter(hint: Option<usize>, items: &[u8]) -> (r: Result<Self, Error>)
        ensures
            match raw_from_iter_outcome(hint, items@) {
                Some(bytes) => r matches Ok(v) && v@ == bytes,
                None => r matches Err(e) && crate::sexp::utils::is_out_of_bounds_error(
                    e,
                    hint.unwrap(),
                    hint.unwrap(),
                ),
            },
    {
        match hint {
            Some(upper) => {
                let mut buf = Self::new_without_init(upper)?;
                let mut i: usize = 0;
                while i < items.len()
                    invariant
                        i <= items.len(),
                        hint == Some(upper),
                        buf@.len() == upper,
                        i <= upper,
                        buf@.take(i as int) == items@.take(i as int),
                    decreases items.len() - i,
                {
                    match assert_len(upper, i) {
                        Ok(()) => {},
                        Err(e) => {
                            return Err(e);
                        },
                    }
                    let ghost before = buf@;
                    buf.data.set(i, items[i]);
                    i = i + 1;
                    assert(buf@.take(i as int) =~= items@.take(i as int)) by {
                        assert(before.take(i - 1) == items@.take(i - 1));
                    }
                }
                let new_len = i;
                assert(new_len == items.len());
                if new_len == upper {
                    assert(buf@ =~= items@) by {
                        assert(buf@.take(upper as int) =~= buf@);
                        assert(items@.take(items@.len() as int) =~= items@);
                    }
                    Ok(buf)
                } else {
                    let mut out = Self::new_without_init(new_len)?;
                    let mut k: usize = 0;
                    while k < new_len
                        invariant
                            k <= new_len,
                            new_len == items.len(),
                            new_len <= upper,
                            buf@.len() == upper,
                            out@.len() == new_len,
                            buf@.take(new_len as int) == items@.take(new_len as int),
                            out@.take(k as int) == items@.take(k as int),
                        decreases new_len - k,
                    {
                        let ghost before = out@;
                        let b = buf.data[k];
                        assert(b == items@[k as int]) by {
                            assert(buf@.take(new_len as int)[k as int] == buf@[k as int]);
                        }
                        out.data.set(k, b);
                        k = k + 1;
                        assert(out@.take(k as int) =~= items@.take(k as int)) by {
                            assert(before.take(k - 1) == items@.take(k - 1));
                        }
                    }
                    assert(out@ =~= items@) by {
                        assert(out@.take(new_len as int) =~= out@);
                        assert(items@.take(new_len as int) =~= items@);
                    }
                    Ok(out)
                }
            },
            None => Self::try_from_slice(items),
        }
    }

    /// Creates a vector with the bytes of a slice.
    pub fn try_from_slice(x: &[u8]) -> (r: Result<Self, Error>)
        ensures
            r matches Ok(v) && v@ == x@,
    {
        Ok(OwnedRawSexp { data: vstd::slice::slice_to_vec(x) })
    }

    /// Creates a vector of one byte.
    pub fn try_from_scalar(value: u8) -> (r: Result<Self, Error>)
        ensures
            r matches Ok(v) && v@ == seq![value],
    {
        let mut data: Vec<u8> = Vec::new();
        data.push(value);
        assert(data@ =~= seq![value]);
        Ok(OwnedRawSexp { data })
    }
}

} // verus!
