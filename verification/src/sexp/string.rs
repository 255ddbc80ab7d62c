//! Character vectors. An element is either a string or `NA`.

use vstd::prelude::*;
use crate::error::Error;
use crate::sexp::utils::assert_len;

verus! {

/// The contents of elements: `None` is `NA`.
pub open spec fn elements_view(v: Seq<Option<String>>) -> Seq<Option<Seq<char>>> {
    Seq::new(
        v.len(),
        |i: int|
            match v[i] {
                Some(s) => Some(s@),
                None => None,
            },
    )
}

/// The text an element reads as: `NA` reads as R's `"NA"`.
pub open spec fn element_text(e: Option<Seq<char>>) -> Seq<char> {
    match e {
        Some(s) => s,
        None => "NA"@,
    }
}

/// The elements that strings make.
pub open spec fn strs_view(v: Seq<&str>) -> Seq<Option<Seq<char>>> {
    Seq::new(v.len(), |i: int| Some(v[i]@))
}

/// The elements of the vector that a conversion from an iterator gives, or
/// `None` where an item falls past the upper bound `hint` of the iterator's
/// `size_hint()`.
pub open spec fn string_from_iter_outcome(hint: Option<usize>, items: Seq<&str>) -> Option<Seq<Option<Seq<char>>>> {
    match hint {
        Some(upper) => if items.len() > upper { None } else { Some(strs_view(items)) },
        None => Some(strs_view(items)),
    }
}

/// A newly created character vector, owned by Rust until it is handed to R.
#[derive(Debug)]
pub struct OwnedStringSexp {
    data: Vec<Option<String>>,
}

impl View for OwnedStringSexp {
    type V = Seq<Option<Seq<char>>>;

    closed spec fn view(&self) -> Seq<Option<Seq<char>>> {
        elements_view(self.data@)
    }
}

impl OwnedStringSexp {
    /// Creates a vector of `len` empty strings.
    pub fn new(len: usize) -> (r: Result<Self, Error>)
        ensures
            r matches Ok(v) && v@ == Seq::new(len as nat, |i: int| Some(Seq::<char>::empty())),
    {
        let mut data: Vec<Option<String>> = Vec::new();
        let mut i: usize = 0;
        while i < len
            invariant
                i <= len,
                data@.len() == i,
                elements_view(data@) == Seq::new(i as nat, |j: int| Some(Seq::<char>::empty())),
            decreases len - i,
        {
            let ghost before = data@;
            let e = String::new();
            assert(e@ == Seq::<char>::empty());
            data.push(Some(e));
            i = i + 1;
            assert forall|j: int| 0 <= j < i implies #[trigger] elements_view(data@)[j] == Some(
                Seq::<char>::empty(),
            ) by {
                if j < i - 1 {
                    assert(data@[j] == before[j]);
                    assert(elements_view(before)[j] == Some(Seq::<char>::empty()));
                }
            }
            assert(elements_view(data@) =~= Seq::new(i as nat, |j: int| Some(Seq::<char>::empty())));
        }
        Ok(OwnedStringSexp { data })
    }

    /// The number of elements.
    pub fn len(&self) -> (n: usize)
        ensures
            n == self@.len(),
    {
        self.data.len()
    }

    /// Whether the vector has no element.
    pub fn is_empty(&self) -> (b: bool)
        ensures
            b == (self@.len() == 0),
    {
        self.data.len() == 0
    }

    /// Whether the `i`-th element is `NA`.
    pub fn is_na(&self, i: usize) -> (b: bool)
        requires
            i < self@.len(),
        ensures
            b == (self@[i as int] is None),
    {
        self.data[i].is_none()
    }

    /// The elements as text; `NA` reads as `"NA"`.
    pub fn to_vec(&self) -> (v: Vec<String>)
        ensures
            v@.len() == self@.len(),
            forall|i: int| 0 <= i < v@.len() ==> #[trigger] v@[i]@ == element_text(self@[i]),
    {
        let mut out: Vec<String> = Vec::new();
        let mut i: usize = 0;
        while i < self.data.len()
            invariant
                i <= self.data.len(),
                out@.len() == i,
                forall|j: int| 0 <= j < i ==> #[trigger] out@[j]@ == element_text(
                    elements_view(self.data@)[j],
                ),
            decreases self.data.len() - i,
        {
            let s = match &self.data[i] {
                Some(s) => s.clone(),
                None => String::from_str("NA"),
            };
            out.push(s);
            i = i + 1;
        }
        out
    }

    /// Sets the `i`-th element; an index past the end is refused.
    pub fn set_elt(&mut self, i: usize, v: &str) -> (r: Result<(), Error>)
        ensures
            i < old(self)@.len() <==> r is Ok,
            r is Ok ==> final(self)@ == old(self)@.update(i as int, Some(v@)),
            r matches Err(e) ==> crate::sexp::utils::is_out_of_bounds_error(e, old(self)@.len() as usize, i)
                && final(self)@ == old(self)@,
    {
        assert_len(self.data.len(), i)?;
        self.data.set(i, Some(String::from_str(v)));
        assert(elements_view(self.data@) =~= elements_view(old(self).data@).update(i as int, Some(v@)));
        Ok(())
    }

    /// Sets the `i`-th element to `NA`; an index past the end is refused.
    pub fn set_na(&mut self, i: usize) -> (r: Result<(), Error>)
        ensures
            i < old(self)@.len() <==> r is Ok,
            r is Ok ==> final(self)@ == old(self)@.update(i as int, None),
            r matches Err(e) ==> crate::sexp::utils::is_out_of_bounds_error(e, old(self)@.len() as usize, i)
                && final(self)@ == old(self)@,
    {
        assert_len(self.data.len(), i)?;
        self.data.set(i, None);
        assert(elements_view(self.data@) =~= elements_view(old(self).data@).update(i as int, None));
        Ok(())
    }

    /// Creates a vector from the items of an iterator. `hint` is the upper
    /// bound of the iterator's `size_hint()`; where there is one, it is the
    /// length allocated first, an item past it is refused, and a shorter
    /// result is copied into a vector of the right length.
    pub fn try_from_iter(hint: Option<usize>, items: &[&str]) -> (r: Result<Self, Error>)
        ensures
            match string_from_iter_outcome(hint, items@) {
                Some(elts) => r matches Ok(v) && v@ == elts,
                None => r matches Err(e) && crate::sexp::utils::is_out_of_bounds_error(
                    e,
                    hint.unwrap(),
                    hint.unwrap(),
                ),
            },
    {
        match hint {
            Some(upper) => {
                let mut i: usize = 0;
                while i < items.len()
                    invariant
                        i <= items.len(),
                        hint == Some(upper),
                        i <= upper,
                    decreases items.len() - i,
                {
                    match assert_len(upper, i) {
                        Ok(()) => {},
                        Err(e) => {
                            return Err(e);
                        },
                    }
                    i = i + 1;
                }
                Self::try_from_slice(items)
            },
            None => Self::try_from_slice(items),
        }
    }

    /// Creates a vector from a slice of strings.
    pub fn try_from_slice(x: &[&str]) -> (r: Result<Self, Error>)
        ensures
            r matches Ok(v) && v@ == strs_view(x@),
    {
        let mut data: Vec<Option<String>> = Vec::new();
        let mut i: usize = 0;
        while i < x.len()
            invariant
                i <= x.len(),
                data@.len() == i,
                elements_view(data@) == strs_view(x@.take(i as int)),
            decreases x.len() - i,
        {
            let ghost before = data@;
            let e = String::from_str(x[i]);
            data.push(Some(e));
            i = i + 1;
            assert forall|j: int| 0 <= j < i implies #[trigger] elements_view(data@)[j]
                == strs_view(x@.take(i as int))[j] by {
                if j < i - 1 {
                    assert(data@[j] == before[j]);
                    assert(elements_view(before)[j] == strs_view(x@.take(i - 1))[j]);
                }
            }
            assert(elements_view(data@) =~= strs_view(x@.take(i as int)));
        }
        assert(x@.take(x.len() as int) =~= x@);
        Ok(OwnedStringSexp { data })
    }

    /// Creates a vector of one string.
    pub fn try_from_scalar(value: &str) -> (r: Result<Self, Error>)
        ensures
            r matches Ok(v) && v@ == seq![Some(value@)],
    {
        let mut data: Vec<Option<String>> = Vec::new();
        data.push(Some(String::from_str(value)));
        assert(elements_view(data@) =~~= seq![Some(value@)]);
        Ok(OwnedStringSexp { data })
    }
}

/// An element set to `NA` is `NA` and reads as `"NA"`; an element set to a
/// string reads as that string; other elements are unchanged.
pub proof fn law_string_set_then_read(before: Seq<Option<Seq<char>>>, i: int, v: Option<Seq<char>>, j: int)
    requires
        0 <= i < before.len(),
        0 <= j < before.len(),
    ensures
        before.update(i, v)[i] == v,
        v is None ==> element_text(before.update(i, v)[i]) == "NA"@,
        j != i ==> before.update(i, v)[j] == before[j],
{
}

} // verus!
