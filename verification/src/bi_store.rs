use std::collections::hash_set::Iter;
use std::collections::{HashMap, HashSet};
use std::fmt::Debug;
use std::hash::Hash;

use vstd::prelude::*;
use vstd::std_specs::hash::obeys_key_model;
use vstd::std_specs::iter::IteratorSpec;

verus! {

/// A many-to-many relation between `T`s and `U`s, indexed in both directions.
#[derive(Debug)]
pub struct BiStore<T, U> where T: Eq + Hash + Copy + Debug, U: Eq + Hash + Copy + Debug {
    fwd: HashMap<T, HashSet<U>>,
    rev: HashMap<U, HashSet<T>>,
}

/// The partners of `a` in an index (none when `a` has no entry).
pub open spec fn partners<T, U>(m: Map<T, Set<U>>, a: T) -> Set<U> {
    if m.contains_key(a) {
        m[a]
    } else {
        Set::empty()
    }
}

/// An index with `b` added to the partners of `a`.
pub open spec fn index_insert<T, U>(m: Map<T, Set<U>>, a: T, b: U) -> Map<T, Set<U>> {
    m.insert(a, partners(m, a).insert(b))
}

/// An index with `b` taken from the partners of `a`.
pub open spec fn index_remove<T, U>(m: Map<T, Set<U>>, a: T, b: U) -> Map<T, Set<U>> {
    if m.contains_key(a) {
        m.insert(a, m[a].remove(b))
    } else {
        m
    }
}

impl<T, U> BiStore<T, U> where T: Eq + Hash + Copy + Debug, U: Eq + Hash + Copy + Debug {
    /// The forward index: each `a` with the set of `b`s it was paired with.
    pub closed spec fn fwd_map(&self) -> Map<T, Set<U>> {
        self.fwd@.map_values(|s: HashSet<U>| s@)
    }

    /// The reverse index: each `b` with the set of `a`s it was paired with.
    pub closed spec fn rev_map(&self) -> Map<U, Set<T>> {
        self.rev@.map_values(|s: HashSet<T>| s@)
    }

    /// The `b`s paired with `a` (empty when `a` has no entry).
    pub open spec fn fwd_set(&self, a: T) -> Set<U> {
        if self.fwd_map().contains_key(a) {
            self.fwd_map()[a]
        } else {
            Set::empty()
        }
    }

    /// The `a`s paired with `b` (empty when `b` has no entry).
    pub open spec fn rev_set(&self, b: U) -> Set<T> {
        if self.rev_map().contains_key(b) {
            self.rev_map()[b]
        } else {
            Set::empty()
        }
    }

    /// Whether the pair `(a, b)` is in the relation.
    pub open spec fn related(&self, a: T, b: U) -> bool {
        self.fwd_set(a).contains(b)
    }

    /// Well-formedness: the key types hash as their values, and the two
    /// indexes describe the same relation.
    pub open spec fn wf(&self) -> bool {
        &&& obeys_key_model::<T>()
        &&& obeys_key_model::<U>()
        &&& forall|a: T, b: U| #[trigger]
            self.fwd_set(a).contains(b) <==> #[trigger] self.rev_set(b).contains(a)
    }

    /// An empty store.
    pub fn new() -> (s: Self)
        requires
            obeys_key_model::<T>(),
            obeys_key_model::<U>(),
        ensures
            s.wf(),
            s.fwd_map() == Map::<T, Set<U>>::empty(),
            s.rev_map() == Map::<U, Set<T>>::empty(),
    {
        let s = BiStore { fwd: HashMap::new(), rev: HashMap::new() };
        assert(s.fwd_map() =~= Map::<T, Set<U>>::empty());
        assert(s.rev_map() =~= Map::<U, Set<T>>::empty());
        s
    }

    /// Adds the pair `(a, b)`; returns whether it was not already present.
    pub fn insert(&mut self, a: T, b: U) -> (r: bool)
        requires
            old(self).wf(),
        ensures
            final(self).wf(),
            r == !old(self).related(a, b),
            final(self).fwd_map() == index_insert(old(self).fwd_map(), a, b),
            final(self).rev_map() == index_insert(old(self).rev_map(), b, a),
    {
        let ghost pre = *self;
        if self.rev.contains_key(&b) {
            let mut s = self.rev.remove(&b).unwrap();
            s.insert(a);
            self.rev.insert(b, s);
        } else {
            let mut s = HashSet::new();
            s.insert(a);
            self.rev.insert(b, s);
        }
        let r = if self.fwd.contains_key(&a) {
            let mut s = self.fwd.remove(&a).unwrap();
            let r = s.insert(b);
            self.fwd.insert(a, s);
            r
        } else {
            let mut s = HashSet::new();
            s.insert(b);
            self.fwd.insert(a, s);
            true
        };
        assert(self.fwd_map() =~= pre.fwd_map().insert(a, pre.fwd_set(a).insert(b)));
        assert(self.rev_map() =~= pre.rev_map().insert(b, pre.rev_set(b).insert(a)));
        assert forall|x: T, y: U| #[trigger]
            self.fwd_set(x).contains(y) <==> #[trigger] self.rev_set(y).contains(x) by {
            assert(pre.fwd_set(x).contains(y) <==> pre.rev_set(y).contains(x));
        }
        r
    }

    /// Removes the pair `(a, b)`; returns whether it was present.
    pub fn remove(&mut self, a: T, b: U) -> (r: bool)
        requires
            old(self).wf(),
        ensures
            final(self).wf(),
            r == old(self).related(a, b),
            final(self).fwd_map() == index_remove(old(self).fwd_map(), a, b),
            final(self).rev_map() == index_remove(old(self).rev_map(), b, a),
    {
        let ghost pre = *self;
        if self.rev.contains_key(&b) {
            let mut s = self.rev.remove(&b).unwrap();
            s.remove(&a);
            self.rev.insert(b, s);
            assert(self.rev_map() =~= pre.rev_map().insert(b, pre.rev_map()[b].remove(a)));
        } else {
            assert(self.rev_map() =~= pre.rev_map());
        }
        let r = if self.fwd.contains_key(&a) {
            let mut s = self.fwd.remove(&a).unwrap();
            let r = s.remove(&b);
            self.fwd.insert(a, s);
            assert(self.fwd_map() =~= pre.fwd_map().insert(a, pre.fwd_map()[a].remove(b)));
            r
        } else {
            assert(self.fwd_map() =~= pre.fwd_map());
            false
        };
        assert forall|x: T, y: U| #[trigger]
            self.fwd_set(x).contains(y) <==> #[trigger] self.rev_set(y).contains(x) by {
            assert(pre.fwd_set(x).contains(y) <==> pre.rev_set(y).contains(x));
        }
        r
    }

    /// Whether `a` is paired with nothing.
    pub fn is_empty(&self, a: T) -> (r: bool)
        requires
            self.wf(),
        ensures
            r == self.fwd_set(a).is_empty(),
            r == (forall|b: U| !self.related(a, b)),
    {
        if self.fwd.contains_key(&a) {
            let s = self.fwd.get(&a).unwrap();
            let r = s.is_empty();
            proof {
                if !r {
                    let b = s@.choose();
                    assert(self.related(a, b));
                }
            }
            r
        } else {
            true
        }
    }

    /// Iterates over the `a`s paired with `b`. The store must have had `b`
    /// paired with something at some point.
    pub fn rev_iter(&self, b: U) -> (r: Iter<'_, T>)
        requires
            self.wf(),
            self.rev_map().contains_key(b),
        ensures
            IteratorSpec::remaining(&r).unref().to_set() == self.rev_set(b),
            IteratorSpec::remaining(&r).unref().no_duplicates(),
    {
        let s = self.rev.get(&b).unwrap();
        s.iter()
    }
}

impl<T, U> Default for BiStore<T, U> where
    T: Eq + Hash + Copy + Debug,
    U: Eq + Hash + Copy + Debug,
 {
    fn default() -> (s: Self)
        ensures
            obeys_key_model::<T>() && obeys_key_model::<U>() ==> s.wf(),
            s.fwd_map() == Map::<T, Set<U>>::empty(),
            s.rev_map() == Map::<U, Set<T>>::empty(),
    {
        let s = BiStore { fwd: HashMap::new(), rev: HashMap::new() };
        assert(s.fwd_map() =~= Map::<T, Set<U>>::empty());
        assert(s.rev_map() =~= Map::<U, Set<T>>::empty());
        s
    }
}

/// The two indexes of a well-formed store always describe the same relation:
/// `b` is among the partners of `a` exactly when `a` is among the partners of `b`.
pub proof fn lemma_indexes_agree<T, U>(s: BiStore<T, U>, a: T, b: U) where
    T: Eq + Hash + Copy + Debug,
    U: Eq + Hash + Copy + Debug,

    requires
        s.wf(),
    ensures
        s.fwd_set(a).contains(b) <==> s.rev_set(b).contains(a),
{
}

/// Adding a pair that was not in the relation and removing it again leaves
/// every pair in the relation or out of it as before.
pub proof fn lemma_insert_then_remove<T, U>(m: Map<T, Set<U>>, a: T, b: U)
    requires
        !partners(m, a).contains(b),
    ensures
        forall|x: T, y: U|
            #[trigger] partners(index_remove(index_insert(m, a, b), a, b), x).contains(y) == partners(m, x).contains(y),
{
    assert forall|x: T, y: U|
        #[trigger] partners(index_remove(index_insert(m, a, b), a, b), x).contains(y) == partners(m, x).contains(y) by {
        if x == a {
            if y == b {
            } else {
            }
        }
    }
}

/// Removing a pair that was in the relation and adding it again leaves
/// every pair in the relation or out of it as before.
pub proof fn lemma_remove_then_insert<T, U>(m: Map<T, Set<U>>, a: T, b: U)
    requires
        partners(m, a).contains(b),
    ensures
        forall|x: T, y: U|
            #[trigger] partners(index_insert(index_remove(m, a, b), a, b), x).contains(y) == partners(m, x).contains(y),
{
}

} // verus!
