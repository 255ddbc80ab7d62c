//! The catalogue of ALTREP classes: each class that a package registers is
//! kept under its name, and new instances look their class up by that name.

use vstd::prelude::*;
use crate::error::Error;

verus! {

/// The message for a class name that is registered a second time.
pub open spec fn already_defined_message(class_name: Seq<char>) -> Seq<char> {
    "[WARN] ALTREP class "@ + class_name + " is already defined. Something seems wrong."@
}

/// The message for a class name that is registered a second time.
fn already_defined(class_name: &str) -> (msg: String)
    ensures
        msg@ == already_defined_message(class_name@),
{
    let mut msg = String::from_str("[WARN] ALTREP class ");
    msg.append(class_name);
    msg.append(" is already defined. Something seems wrong.");
    msg
}

/// The message for a class name that was never registered.
pub const CLASS_NOT_FOUND_MESSAGE: &'static str = "Failed to get the ALTREP class";

/// The registered classes, by name.
#[derive(Debug)]
pub struct AltrepClassCatalogue {
    entries: Vec<(String, usize)>,
}

impl AltrepClassCatalogue {
    /// The classes by name.
    pub closed spec fn classes(&self) -> Map<Seq<char>, usize> {
        Map::new(
            |name: Seq<char>| exists|i: int| 0 <= i < self.entries@.len() && #[trigger] self.entries@[i].0@ == name,
            |name: Seq<char>| self.entries@[self.index_of(name)].1,
        )
    }

    closed spec fn index_of(&self, name: Seq<char>) -> int {
        choose|i: int| 0 <= i < self.entries@.len() && #[trigger] self.entries@[i].0@ == name
    }

    /// No name is registered twice.
    pub closed spec fn wf(&self) -> bool {
        forall|i: int, j: int|
            0 <= i < self.entries@.len() && 0 <= j < self.entries@.len() && i != j
                ==> #[trigger] self.entries@[i].0@ != #[trigger] self.entries@[j].0@
    }

    /// An empty catalogue.
    pub fn new() -> (c: Self)
        ensures
            c.wf(),
            c.classes() == Map::<Seq<char>, usize>::empty(),
    {
        let c = AltrepClassCatalogue { entries: Vec::new() };
        assert(c.classes() =~= Map::<Seq<char>, usize>::empty());
        c
    }

    fn find(&self, class_name: &str) -> (r: Option<usize>)
        requires
            self.wf(),
        ensures
            match r {
                Some(i) => i < self.entries@.len() && self.entries@[i as int].0@ == class_name@,
                None => !self.classes().dom().contains(class_name@),
            },
    {
        let key = String::from_str(class_name);
        let mut i: usize = 0;
        while i < self.entries.len()
            invariant
                i <= self.entries.len(),
                key@ == class_name@,
                forall|j: int| 0 <= j < i ==> #[trigger] self.entries@[j].0@ != class_name@,
            decreases self.entries.len() - i,
        {
            if self.entries[i].0 == key {
                return Some(i);
            }
            i = i + 1;
        }
        None
    }

    /// Registers a class under its name. The class is stored either way; a
    /// name that was already registered is reported as an error.
    pub fn register_altrep_class(&mut self, class_name: &str, class_t: usize) -> (r: Result<(), Error>)
        requires
            old(self).wf(),
        ensures
            final(self).wf(),
            final(self).classes() == old(self).classes().insert(class_name@, class_t),
            old(self).classes().dom().contains(class_name@) ==> (r matches Err(e) && e is GeneralError
                && e->GeneralError_0@ == already_defined_message(class_name@)),
            !old(self).classes().dom().contains(class_name@) ==> r is Ok,
    {
        let ghost old_entries = self.entries@;
        match self.find(class_name) {
            Some(i) => {
                self.entries.set(i, (String::from_str(class_name), class_t));
                proof {
                    assert forall|n: Seq<char>| #[trigger] self.classes().dom().contains(n) <==> old(self).classes().dom().contains(n) || n == class_name@ by {
                        if old(self).classes().dom().contains(n) {
                            let k = choose|k: int| 0 <= k < old_entries.len() && #[trigger] old_entries[k].0@ == n;
                            assert(self.entries@[k].0@ == n);
                        }
                        if self.classes().dom().contains(n) {
                            let k = choose|k: int| 0 <= k < self.entries@.len() && #[trigger] self.entries@[k].0@ == n;
                            assert(old_entries[k].0@ == n || n == class_name@);
                        }
                    }
                    assert forall|n: Seq<char>| #[trigger] self.classes().dom().contains(n) implies self.classes()[n] == old(self).classes().insert(class_name@, class_t)[n] by {
                        let k = self.index_of(n);
                        if n == class_name@ {
                            assert(k == i);
                        } else {
                            let k0 = old(self).index_of(n);
                            assert(k0 != i);
                            assert(self.entries@[k0].0@ == n);
                            assert(k == k0);
                        }
                    }
                    assert(self.classes() =~= old(self).classes().insert(class_name@, class_t));
                }
                Err(Error::GeneralError(already_defined(class_name)))
            },
            None => {
                self.entries.push((String::from_str(class_name), class_t));
                proof {
                    let last = self.entries@.len() - 1;
                    assert forall|n: Seq<char>| #[trigger] self.classes().dom().contains(n) <==> old(self).classes().dom().contains(n) || n == class_name@ by {
                        if old(self).classes().dom().contains(n) {
                            let k = choose|k: int| 0 <= k < old_entries.len() && #[trigger] old_entries[k].0@ == n;
                            assert(self.entries@[k].0@ == n);
                        }
                        if n == class_name@ {
                            assert(self.entries@[last].0@ == n);
                        }
                        if self.classes().dom().contains(n) {
                            let k = choose|k: int| 0 <= k < self.entries@.len() && #[trigger] self.entries@[k].0@ == n;
                            if k < last {
                                assert(old_entries[k].0@ == n);
                            }
                        }
                    }
                    assert forall|n: Seq<char>| #[trigger] self.classes().dom().contains(n) implies self.classes()[n] == old(self).classes().insert(class_name@, class_t)[n] by {
                        let k = self.index_of(n);
                        if n == class_name@ {
                            if k < last {
                                assert(old_entries[k].0@ == n);
                            }
                            assert(k == last);
                        } else {
                            let k0 = old(self).index_of(n);
                            assert(self.entries@[k0].0@ == n);
                            assert(k == k0);
                        }
                    }
                    assert(self.classes() =~= old(self).classes().insert(class_name@, class_t));
                }
                Ok(())
            },
        }
    }

    /// The class registered under a name; a name never registered is an error.
    pub fn get_class(&self, class_name: &str) -> (r: Result<usize, Error>)
        requires
            self.wf(),
        ensures
            self.classes().dom().contains(class_name@) ==> r == Ok::<usize, Error>(
                self.classes()[class_name@],
            ),
            !self.classes().dom().contains(class_name@) ==> (r matches Err(e) && e is GeneralError
                && e->GeneralError_0@ == CLASS_NOT_FOUND_MESSAGE@),
    {
        match self.find(class_name) {
            Some(i) => {
                assert(self.index_of(class_name@) == i as int);
                Ok(self.entries[i].1)
            },
            None => Err(Error::GeneralError(String::from_str(CLASS_NOT_FOUND_MESSAGE))),
        }
    }
}

/// A class registered under a name is what looking that name up gives, and the
/// classes under other names are unchanged.
pub proof fn law_get_after_register(classes: Map<Seq<char>, usize>, name: Seq<char>, class_t: usize, other: Seq<char>)
    ensures
        classes.insert(name, class_t).dom().contains(name),
        classes.insert(name, class_t)[name] == class_t,
        other != name ==> (classes.insert(name, class_t).dom().contains(other) == classes.dom().contains(other)),
        other != name && classes.dom().contains(other) ==> classes.insert(name, class_t)[other] == classes[other],
{
}

/// What an ALTREP vector does when R asks for its materialised data.
#[derive(Clone, Copy, Debug, PartialEq, Eq, Structural)]
pub enum MaterializeAction {
    /// Hand out the materialised vector cached earlier.
    UseCached,
    /// Allocate a vector, copy the data into it, and keep it as the cache
    /// where the class caches.
    Allocate { cache: bool },
    /// Allocation is not wanted here: hand out nothing.
    GiveUp,
}

/// The action: a class that caches hands out its cache where there is one;
/// otherwise a vector is allocated, unless allocation is not allowed.
pub open spec fn materialize_action_spec(cache_materialized: bool, has_cached: bool, allow_allocate: bool) -> MaterializeAction {
    if cache_materialized && has_cached {
        MaterializeAction::UseCached
    } else if !allow_allocate {
        MaterializeAction::GiveUp
    } else {
        MaterializeAction::Allocate { cache: cache_materialized }
    }
}

/// Decides how to materialise an ALTREP vector.
pub fn materialize_action(cache_materialized: bool, has_cached: bool, allow_allocate: bool) -> (a: MaterializeAction)
    ensures
        a == materialize_action_spec(cache_materialized, has_cached, allow_allocate),
{
    if cache_materialized && has_cached {
        return MaterializeAction::UseCached;
    }
    if !allow_allocate {
        return MaterializeAction::GiveUp;
    }
    MaterializeAction::Allocate { cache: cache_materialized }
}

/// Where R asks for the data pointer of an ALTREP vector: a class that caches
/// goes through materialisation; any other hands out its own data pointer.
#[derive(Clone, Copy, Debug, PartialEq, Eq, Structural)]
pub enum DataptrSource {
    Materialized,
    OwnDataptr,
}

/// The source of the data pointer.
pub fn dataptr_source(cache_materialized: bool) -> (s: DataptrSource)
    ensures
        s == (if cache_materialized { DataptrSource::Materialized } else { DataptrSource::OwnDataptr }),
{
    if cache_materialized {
        DataptrSource::Materialized
    } else {
        DataptrSource::OwnDataptr
    }
}

/// Whether `m` elements from `offset` lie within a vector of length `len`.
pub fn copy_range_ok(offset: usize, m: usize, len: usize) -> (ok: bool)
    ensures
        ok == (offset + m <= len),
{
    m <= len && offset <= len - m
}

/// Copies the elements of `data` from `offset` on into `new`, filling it;
/// where that range does not lie within `data`, `new` is left as it is.
pub fn copy_to(data: &[i32], new: &mut Vec<i32>, offset: usize)
    ensures
        offset + old(new)@.len() <= data@.len() ==> final(new)@ == data@.subrange(
            offset as int,
            offset + old(new)@.len(),
        ),
        offset + old(new)@.len() > data@.len() ==> final(new)@ == old(new)@,
{
    if !copy_range_ok(offset, new.len(), data.len()) {
        return;
    }
    let n = new.len();
    let mut i: usize = 0;
    while i < n
        invariant
            n == new@.len(),
            n == old(new)@.len(),
            offset + n <= data@.len(),
            data@.len() == data.len(),
            i <= n,
            forall|k: int| 0 <= k < i ==> #[trigger] new@[k] == data@[offset + k],
        decreases n - i,
    {
        new.set(i, data[i + offset]);
        i = i + 1;
    }
    assert(new@ =~= data@.subrange(offset as int, offset + n));
}

/// Materialising hands out a vector whenever allocation is allowed: the
/// cache where the class caches and has one, else a newly allocated vector,
/// kept as the cache exactly when the class caches. The cache is used only
/// by a caching class that has one, and where allocation is not allowed
/// nothing is allocated.
pub proof fn law_materialize_hands_out_a_vector(cache_materialized: bool, has_cached: bool, allow_allocate: bool)
    ensures
        allow_allocate ==> !(materialize_action_spec(cache_materialized, has_cached, allow_allocate) is GiveUp),
        materialize_action_spec(cache_materialized, has_cached, allow_allocate) is UseCached
            <==> cache_materialized && has_cached,
        materialize_action_spec(cache_materialized, has_cached, allow_allocate) matches MaterializeAction::Allocate { cache }
            ==> cache == cache_materialized && allow_allocate,
        !allow_allocate && !(cache_materialized && has_cached) ==> materialize_action_spec(
            cache_materialized,
            has_cached,
            allow_allocate,
        ) is GiveUp,
{
}

} // verus!
