//! Lists. Each element is an R object, held here by its handle; a list may
//! carry names.

use vstd::prelude::*;
use crate::error::Error;
use crate::protect::NIL;
use crate::sexp::utils::assert_len;

verus! {

/// A newly created list, owned by Rust until it is handed to R.
#[derive(Debug)]
pub struct OwnedListSexp {
    values: Vec<usize>,
    names: Option<Vec<String>>,
}

impl OwnedListSexp {
    /// The handles of the elements.
    pub closed spec fn values_view(&self) -> Seq<usize> {
        self.values@
    }

    /// The names, where the list has them.
    pub closed spec fn names_view(&self) -> Option<Seq<Seq<char>>> {
        match self.names {
            Some(n) => Some(crate::text::views(n@)),
            None => None,
        }
    }

    /// The name of each element: the empty string where the list has no names.
    pub open spec fn names_or_empty(&self) -> Seq<Seq<char>> {
        match self.names_view() {
            Some(n) => n,
            None => Seq::new(self.values_view().len(), |i: int| Seq::<char>::empty()),
        }
    }

    /// Every element has one name, where the list has names.
    pub open spec fn wf(&self) -> bool {
        match self.names_view() {
            Some(n) => n.len() == self.values_view().len(),
            None => true,
        }
    }

    /// Creates a list of `len` `NULL`s; with `named`, each has the empty name.
    pub fn new(len: usize, named: bool) -> (r: Result<Self, Error>)
        ensures
            r matches Ok(l) && l.wf() && l.values_view() == Seq::new(len as nat, |i: int| NIL) && (if named {
                l.names_view() == Some(Seq::new(len as nat, |i: int| Seq::<char>::empty()))
            } else {
                l.names_view() is None
            }),
    {
        let mut values: Vec<usize> = Vec::new();
        let mut names: Vec<String> = Vec::new();
        let mut i: usize = 0;
        while i < len
            invariant
                i <= len,
                values@ == Seq::new(i as nat, |j: int| NIL),
                names@.len() == i,
                forall|j: int| 0 <= j < i ==> #[trigger] names@[j]@ == Seq::<char>::empty(),
            decreases len - i,
        {
            values.push(NIL);
            names.push(String::new());
            i = i + 1;
            assert(values@ =~= Seq::new(i as nat, |j: int| NIL));
        }
        assert(crate::text::views(names@) =~= Seq::new(len as nat, |j: int| Seq::<char>::empty()));
        let names = if named { Some(names) } else { None };
        Ok(OwnedListSexp { values, names })
    }

    /// The number of elements.
    pub fn len(&self) -> (n: usize)
        requires
            self.wf(),
        ensures
            n == self.values_view().len(),
    {
        self.values.len()
    }

    /// Whether the list has no element.
    pub fn is_empty(&self) -> (b: bool)
        requires
            self.wf(),
        ensures
            b == (self.values_view().len() == 0),
    {
        self.values.len() == 0
    }

    /// The name of each element; the empty string where the list has no names.
    pub fn names_iter(&self) -> (v: Vec<String>)
        requires
            self.wf(),
        ensures
            crate::text::views(v@) == self.names_or_empty(),
            v@.len() == self.values_view().len(),
    {
        let mut out: Vec<String> = Vec::new();
        let mut i: usize = 0;
        while i < self.values.len()
            invariant
                i <= self.values.len(),
                self.names matches Some(n) ==> n@.len() == self.values@.len(),
                out@.len() == i,
                forall|j: int| 0 <= j < i ==> (#[trigger] out@[j])@ == self.names_or_empty()[j],
            decreases self.values.len() - i,
        {
            let s = match &self.names {
                Some(n) => n[i].clone(),
                None => String::new(),
            };
            out.push(s);
            i = i + 1;
        }
        assert(crate::text::views(out@) =~= self.names_or_empty());
        out
    }

    /// The handles of the elements.
    pub fn values_iter(&self) -> (v: Vec<usize>)
        requires
            self.wf(),
        ensures
            v@ == self.values_view(),
    {
        vstd::slice::slice_to_vec(self.values.as_slice())
    }

    /// The element at `i`, or `None` past the end.
    pub fn get_by_index(&self, i: usize) -> (r: Option<usize>)
        requires
            self.wf(),
        ensures
            i < self.values_view().len() ==> r == Some(self.values_view()[i as int]),
            i >= self.values_view().len() ==> r is None,
    {
        if i >= self.values.len() {
            return None;
        }
        Some(self.values[i])
    }

    /// The element of the first name equal to `k`, or `None` where no name is.
    pub fn get(&self, k: &str) -> (r: Option<usize>)
        requires
            self.wf(),
        ensures
            match r {
                Some(v) => exists|i: int|
                    0 <= i < self.values_view().len() && #[trigger] self.names_or_empty()[i] == k@
                        && (forall|j: int| 0 <= j < i ==> self.names_or_empty()[j] != k@) && v
                        == self.values_view()[i],
                None => forall|i: int|
                    0 <= i < self.values_view().len() ==> #[trigger] self.names_or_empty()[i] != k@,
            },
    {
        let names = self.names_iter();
        assert(crate::text::views(names@).len() == names@.len());
        assert(self.names_or_empty().len() == self.values_view().len());
        let key = String::from_str(k);
        let mut i: usize = 0;
        while i < names.len()
            invariant
                i <= names.len(),
                names.len() == self.values_view().len(),
                crate::text::views(names@) == self.names_or_empty(),
                key@ == k@,
                forall|j: int| 0 <= j < i ==> self.names_or_empty()[j] != k@,
            decreases names.len() - i,
        {
            if names[i] == key {
                assert(self.names_or_empty()[i as int] == k@);
                return Some(self.values[i]);
            }
            assert(self.names_or_empty()[i as int] == names@[i as int]@);
            i = i + 1;
        }
        None
    }

    /// Sets the element at `i`; an index past the end is refused.
    pub fn set_value(&mut self, i: usize, v: usize) -> (r: Result<(), Error>)
        requires
            old(self).wf(),
        ensures
            final(self).wf(),
            i < old(self).values_view().len() <==> r is Ok,
            r is Ok ==> final(self).values_view() == old(self).values_view().update(i as int, v),
            final(self).names_view() == old(self).names_view(),
            r matches Err(e) ==> crate::sexp::utils::is_out_of_bounds_error(
                e,
                old(self).values_view().len() as usize,
                i,
            ) && final(self).values_view() == old(self).values_view(),
    {
        assert_len(self.values.len(), i)?;
        self.values.set(i, v);
        Ok(())
    }

    /// Sets the name at `i`; an index past the end is refused. A list without
    /// names is left as it is.
    pub fn set_name(&mut self, i: usize, k: &str) -> (r: Result<(), Error>)
        requires
            old(self).wf(),
        ensures
            final(self).wf(),
            i < old(self).values_view().len() <==> r is Ok,
            final(self).values_view() == old(self).values_view(),
            r is Ok ==> final(self).names_view() == match old(self).names_view() {
                Some(n) => Some(n.update(i as int, k@)),
                None => None,
            },
            r matches Err(e) ==> crate::sexp::utils::is_out_of_bounds_error(
                e,
                old(self).values_view().len() as usize,
                i,
            ) && final(self).names_view() == old(self).names_view(),
    {
        assert_len(self.values.len(), i)?;
        let ghost old_names = self.names_view();
        match self.names.take() {
            Some(mut n) => {
                n.set(i, String::from_str(k));
                assert(crate::text::views(n@) =~= old_names.unwrap().update(i as int, k@));
                self.names = Some(n);
            },
            None => {},
        }
        Ok(())
    }

    /// Sets the name and the element at `i`; an index past the end is refused.
    pub fn set_name_and_value(&mut self, i: usize, k: &str, v: usize) -> (r: Result<(), Error>)
        requires
            old(self).wf(),
        ensures
            final(self).wf(),
            i < old(self).values_view().len() <==> r is Ok,
            r is Ok ==> final(self).values_view() == old(self).values_view().update(i as int, v),
            r is Ok ==> final(self).names_view() == match old(self).names_view() {
                Some(n) => Some(n.update(i as int, k@)),
                None => None,
            },
            r matches Err(e) ==> crate::sexp::utils::is_out_of_bounds_error(
                e,
                old(self).values_view().len() as usize,
                i,
            ) && final(self).values_view() == old(self).values_view() && final(self).names_view()
                == old(self).names_view(),
    {
        self.set_name(i, k)?;
        self.values.set(i, v);
        Ok(())
    }
}

} // verus!
