//! Logical vectors. Each element is stored as an `i32`: `1` for `TRUE`, `0`
//! for `FALSE`, and `NA_INTEGER` for `NA`.

use vstd::prelude::*;
use crate::error::Error;
use crate::sexp::na::{NA_INTEGER, bool_to_logical_raw, logical_raw_to_bool};
use crate::sexp::utils::assert_len;

verus! {

/// The Booleans that stored logicals read as.
pub open spec fn logical_values(raw: Seq<i32>) -> Seq<bool> {
    Seq::new(raw.len(), |i: int| crate::sexp::na::logical_value(raw[i]))
}

/// The stored logicals of Booleans.
pub open spec fn logical_raws(values: Seq<bool>) -> Seq<i32> {
    Seq::new(values.len(), |i: int| crate::sexp::na::logical_raw(values[i]))
}

/// The stored form of the vector that a conversion from an iterator gives, or
/// `None` where it fails. The iterator yields `items`; `hint` is the upper
/// bound of its `size_hint()`, which the conversion uses as the length to
/// allocate and then shortens to the number of items. An item past that
/// bound is refused.
pub open spec fn from_iter_outcome(hint: Option<usize>, items: Seq<bool>) -> Option<Seq<i32>> {
    match hint {
        Some(upper) => if items.len() > upper { None } else { Some(logical_raws(items)) },
        None => Some(logical_raws(items)),
    }
}

/// A newly created logical vector, owned by Rust until it is handed to R.
#[derive(Debug)]
pub struct OwnedLogicalSexp {
    data: Vec<i32>,
}

impl View for OwnedLogicalSexp {
    type V = Seq<i32>;

    /// The stored form of the elements.
    closed spec fn view(&self) -> Seq<i32> {
        self.data@
    }
}

/// Reads the elements of a logical vector as Booleans.
pub struct LogicalSexpIter<'a> {
    raw: &'a [i32],
    i: usize,
}

impl<'a> LogicalSexpIter<'a> {
    /// The Booleans not read yet.
    pub closed spec fn remaining(&self) -> Seq<bool> {
        logical_values(self.raw@.subrange(self.i as int, self.raw@.len() as int))
    }

    /// The well-formedness of the iterator.
    pub closed spec fn wf(&self) -> bool {
        self.i <= self.raw@.len()
    }

    /// The next Boolean, or `None` at the end.
    pub fn next(&mut self) -> (r: Option<bool>)
        requires
            old(self).wf(),
        ensures
            final(self).wf(),
            old(self).remaining().len() == 0 ==> r is None && final(self).remaining()
                == old(self).remaining(),
            old(self).remaining().len() > 0 ==> r == Some(old(self).remaining()[0])
                && final(self).remaining() == old(self).remaining().drop_first(),
    {
        if self.i < self.raw.len() {
            let v = logical_raw_to_bool(self.raw[self.i]);
            let ghost before = self.raw@.subrange(self.i as int, self.raw@.len() as int);
            self.i = self.i + 1;
            assert(logical_values(self.raw@.subrange(self.i as int, self.raw@.len() as int))
                =~= logical_values(before).drop_first());
            Some(v)
        } else {
            None
        }
    }

    /// The bounds of the number of Booleans not read yet; both are exact.
    pub fn size_hint(&self) -> (r: (usize, Option<usize>))
        requires
            self.wf(),
        ensures
            r.0 == self.remaining().len(),
            r.1 == Some(self.remaining().len() as usize),
    {
        let n = self.raw.len() - self.i;
        (n, Some(n))
    }
}

impl OwnedLogicalSexp {
    /// Creates a vector of `len` elements, all `FALSE`.
    pub fn new(len: usize) -> (r: Result<Self, Error>)
        ensures
            r matches Ok(v) && v@ == Seq::new(len as nat, |i: int| 0i32),
    {
        let mut data: Vec<i32> = Vec::new();
        let mut i: usize = 0;
        while i < len
            invariant
                i <= len,
                data@ == Seq::new(i as nat, |j: int| 0i32),
            decreases len - i,
        {
            data.push(0);
            i = i + 1;
            assert(data@ =~= Seq::new(i as nat, |j: int| 0i32));
        }
        Ok(OwnedLogicalSexp { data })
    }

    /// Creates a vector of `len` elements whose values are left to the
    /// caller to set.
    pub fn new_without_init(len: usize) -> (r: Result<Self, Error>)
        ensures
            r matches Ok(v) && v@.len() == len,
    {
        Self::new(len)
    }

    /// The number of elements.
    pub fn len(&self) -> (n: usize)
        ensures
            n == self@.len(),
    {
        self.data.len()
    }

    /// Whether the vector has no element.
    pub fn is_empty(&self) -> (b: bool)
        ensures
            b == (self@.len() == 0),
    {
        self.data.len() == 0
    }

    /// The stored form of the elements, which tells `NA` apart.
    pub fn as_slice_raw(&self) -> (s: &[i32])
        ensures
            s@ == self@,
    {
        self.data.as_slice()
    }

    /// An iterator over the elements as Booleans.
    pub fn iter(&self) -> (it: LogicalSexpIter<'_>)
        ensures
            it.wf(),
            it.remaining() == logical_values(self@),
    {
        let it = LogicalSexpIter { raw: self.data.as_slice(), i: 0 };
        assert(self.data@.subrange(0, self.data@.len() as int) =~= self.data@);
        it
    }

    /// The elements as Booleans; `NA` reads as `FALSE`.
    pub fn to_vec(&self) -> (v: Vec<bool>)
        ensures
            v@ == logical_values(self@),
    {
        let mut out: Vec<bool> = Vec::new();
        let mut i: usize = 0;
        while i < self.data.len()
            invariant
                i <= self.data.len(),
                out@ == logical_values(self.data@.take(i as int)),
            decreases self.data.len() - i,
        {
            out.push(logical_raw_to_bool(self.data[i]));
            i = i + 1;
            assert(out@ =~= logical_values(self.data@.take(i as int)));
        }
        assert(self.data@.take(self.data.len() as int) =~= self.data@);
        out
    }

    /// Sets the `i`-th element; an index past the end is refused.
    pub fn set_elt(&mut self, i: usize, v: bool) -> (r: Result<(), Error>)
        ensures
            i < old(self)@.len() <==> r is Ok,
            r is Ok ==> final(self)@ == old(self)@.update(
                i as int,
                crate::sexp::na::logical_raw(v),
            ),
            r matches Err(e) ==> crate::sexp::utils::is_out_of_bounds_error(e, old(self)@.len() as usize, i)
                && final(self)@ == old(self)@,
    {
        assert_len(self.data.len(), i)?;
        self.data.set(i, bool_to_logical_raw(v));
        Ok(())
    }

    /// Sets the `i`-th element to `NA`; an index past the end is refused.
    pub fn set_na(&mut self, i: usize) -> (r: Result<(), Error>)
        ensures
            i < old(self)@.len() <==> r is Ok,
            r is Ok ==> final(self)@ == old(self)@.update(i as int, NA_INTEGER),
            r matches Err(e) ==> crate::sexp::utils::is_out_of_bounds_error(e, old(self)@.len() as usize, i)
                && final(self)@ == old(self)@,
    {
        assert_len(self.data.len(), i)?;
        self.data.set(i, NA_INTEGER);
        Ok(())
    }

    /// Creates a vector from the items of an iterator. `hint` is the upper
    /// bound of the iterator's `size_hint()`; where there is one, it is the
    /// length allocated first, an item past it is refused, and the vector is
    /// then shortened to the items it got.
    pub fn try_from_iter(hint: Option<usize>, items: &[bool]) -> (r: Result<Self, Error>)
        ensures
            match from_iter_outcome(hint, items@) {
                Some(raw) => r matches Ok(v) && v@ == raw,
                None => r matches Err(e) && crate::sexp::utils::is_out_of_bounds_error(
                    e,
                    hint.unwrap(),
                    hint.unwrap(),
                ),
            },
    {
        match hint {
            Some(upper) => {
                let mut out = Self::new_without_init(upper)?;
                let mut i: usize = 0;
                while i < items.len()
                    invariant
                        i <= items.len(),
                        hint == Some(upper),
                        out@.len() == upper,
                        i <= upper,
                        out@.take(i as int) == logical_raws(items@.take(i as int)),
                    decreases items.len() - i,
                {
                    let ghost before = out@;
                    match out.set_elt(i, items[i]) {
                        Ok(()) => {},
                        Err(e) => {
                            assert(i == upper);
                            return Err(e);
                        },
                    }
                    i = i + 1;
                    assert(out@.take(i as int) =~= logical_raws(items@.take(i as int))) by {
                        assert(before.take(i - 1) == logical_raws(items@.take(i - 1)));
                        assert(out@.take(i as int) =~= before.take(i - 1).push(
                            crate::sexp::na::logical_raw(items@[i - 1]),
                        ));
                        assert(logical_raws(items@.take(i as int)) =~= logical_raws(
                            items@.take(i - 1),
                        ).push(crate::sexp::na::logical_raw(items@[i - 1])));
                    }
                }
                let new_len = i;
                if new_len != upper {
                    out.data.truncate(new_len);
                }
                assert(out@ =~= out@.take(items@.len() as int));
                assert(items@.take(items@.len() as int) =~= items@);
                assert(out@ =~= logical_raws(items@));
                Ok(out)
            },
            None => Self::try_from_slice(items),
        }
    }

    /// Creates a vector from a slice of Booleans.
    pub fn try_from_slice(x: &[bool]) -> (r: Result<Self, Error>)
        ensures
            r matches Ok(v) && v@ == logical_raws(x@),
    {
        let mut data: Vec<i32> = Vec::new();
        let mut i: usize = 0;
        while i < x.len()
            invariant
                i <= x.len(),
                data@ == logical_raws(x@.take(i as int)),
            decreases x.len() - i,
        {
            data.push(bool_to_logical_raw(x[i]));
            i = i + 1;
            assert(data@ =~= logical_raws(x@.take(i as int)));
        }
        assert(x@.take(x.len() as int) =~= x@);
        Ok(OwnedLogicalSexp { data })
    }

    /// Creates a vector of one element.
    pub fn try_from_scalar(value: bool) -> (r: Result<Self, Error>)
        ensures
            r matches Ok(v) && v@ == seq![crate::sexp::na::logical_raw(value)],
    {
        let mut data: Vec<i32> = Vec::new();
        data.push(bool_to_logical_raw(value));
        assert(data@ =~= seq![crate::sexp::na::logical_raw(value)]);
        Ok(OwnedLogicalSexp { data })
    }
}

/// A Boolean set into a logical vector reads back as that Boolean, and the
/// other elements read as before.
pub proof fn law_logical_set_then_read(before: Seq<i32>, i: int, v: bool)
    requires
        0 <= i < before.len(),
    ensures
        logical_values(before.update(i, crate::sexp::na::logical_raw(v)))[i] == v,
        forall|j: int|
            0 <= j < before.len() && j != i ==> #[trigger] logical_values(
                before.update(i, crate::sexp::na::logical_raw(v)),
            )[j] == logical_values(before)[j],
{
}

/// A logical vector made from Booleans reads back as those Booleans.
pub proof fn law_logical_slice_roundtrip(x: Seq<bool>)
    ensures
        logical_values(logical_raws(x)) == x,
{
    assert(logical_values(logical_raws(x)) =~= x);
}

/// An element set to `NA` is stored as `NA_INTEGER` and reads as `FALSE`.
pub proof fn law_logical_na(before: Seq<i32>, i: int)
    requires
        0 <= i < before.len(),
    ensures
        before.update(i, NA_INTEGER)[i] == NA_INTEGER,
        logical_values(before.update(i, NA_INTEGER))[i] == false,
{
}

} // verus!
