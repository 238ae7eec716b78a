use std::collections::HashMap;
use std::hash::Hash;

use vstd::prelude::*;
use vstd::std_specs::hash::obeys_key_model;

verus! {

/// The state of one slot of a [`CheckingStore`].
pub enum StoreState<V> {
    /// The value is in the store.
    Present(V),
    /// The value is checked out.
    Loaned,
    /// The value is checked out and was removed meanwhile; it is dropped on check-in.
    AwaitingDrop,
}

/// A key-value store that hands out values and checks that they come back.
pub struct CheckingStore<K, V> where K: Hash + Eq + Copy {
    store: HashMap<K, StoreState<V>>,
    outstanding: usize,
}

/// A value checked out of a [`CheckingStore`], to be handed back with
/// [`CheckingStore::checkin`].
pub struct DropGuard<K, V> where K: Hash + Eq + Copy {
    key: K,
    inner: V,
}

/// The slots after `key` was checked out (it held a present value).
pub open spec fn after_checkout<K, V>(m: Map<K, StoreState<V>>, key: K) -> Map<K, StoreState<V>> {
    m.insert(key, StoreState::Loaned)
}

/// The slots after the value `val` was checked in under `key`.
pub open spec fn after_checkin<K, V>(m: Map<K, StoreState<V>>, key: K, val: V) -> Map<
    K,
    StoreState<V>,
> {
    if m[key] is AwaitingDrop {
        m.remove(key)
    } else {
        m.insert(key, StoreState::Present(val))
    }
}

/// The slots after `key` was removed.
pub open spec fn after_remove<K, V>(m: Map<K, StoreState<V>>, key: K) -> Map<K, StoreState<V>> {
    if !m.contains_key(key) {
        m
    } else {
        match m[key] {
            StoreState::Present(_) => m.remove(key),
            StoreState::Loaned => m.insert(key, StoreState::AwaitingDrop),
            StoreState::AwaitingDrop => m,
        }
    }
}

/// What `remove` reports for `key`: whether a live value (present or loaned) was removed.
pub open spec fn remove_result<K, V>(m: Map<K, StoreState<V>>, key: K) -> bool {
    m.contains_key(key) && !(m[key] is AwaitingDrop)
}

/// The keys whose values are currently checked out.
pub open spec fn checked_out<K, V>(m: Map<K, StoreState<V>>) -> Set<K> {
    m.dom().filter(|k: K| !(m[k] is Present))
}

impl<K, V> DropGuard<K, V> where K: Hash + Eq + Copy {
    /// The key the value was checked out under.
    pub closed spec fn spec_key(&self) -> K {
        self.key
    }

    /// The checked-out value.
    pub closed spec fn spec_value(&self) -> V {
        self.inner
    }

    /// The key the value was checked out under.
    pub fn key(&self) -> (k: K)
        ensures
            k == self.spec_key(),
    {
        self.key
    }

    /// Read access to the checked-out value.
    pub fn value(&self) -> (v: &V)
        ensures
            *v == self.spec_value(),
    {
        &self.inner
    }

    /// Replaces the checked-out value, returning the previous one.
    pub fn replace(&mut self, v: V) -> (prev: V)
        ensures
            prev == old(self).spec_value(),
            final(self).spec_value() == v,
            final(self).spec_key() == old(self).spec_key(),
    {
        let mut v = v;
        std::mem::swap(&mut self.inner, &mut v);
        v
    }
}

impl<K, V> CheckingStore<K, V> where K: Hash + Eq + Copy {
    /// The slots of the store, by key.
    pub closed spec fn view(&self) -> Map<K, StoreState<V>> {
        self.store@
    }

    /// How many values are checked out and not yet returned.
    pub closed spec fn spec_outstanding(&self) -> nat {
        self.outstanding as nat
    }

    /// Well-formedness: keys hash as their values, and the counter of
    /// outstanding checkouts equals the number of checked-out slots.
    pub open spec fn wf(&self) -> bool {
        &&& obeys_key_model::<K>()
        &&& self.view().dom().finite()
        &&& self.spec_outstanding() == checked_out(self.view()).len()
    }

    proof fn lemma_count_bounded(&self)
        requires
            obeys_key_model::<K>(),
        ensures
            self.view().dom().finite(),
            checked_out(self.view()).len() <= self.store@.len(),
            self.store@.len() <= usize::MAX,
    {
        let m = self.store@;
        assert(checked_out(m).subset_of(m.dom()));
        vstd::set_lib::lemma_len_subset(checked_out(m), m.dom());
        assert(self.store.len() == m.len());
    }

    /// An empty store.
    pub fn new() -> (s: Self)
        requires
            obeys_key_model::<K>(),
        ensures
            s.wf(),
            s.view() == Map::<K, StoreState<V>>::empty(),
    {
        let s = CheckingStore { store: HashMap::new(), outstanding: 0 };
        assert(checked_out(s.view()) =~= Set::<K>::empty());
        s
    }

    /// How many values are checked out and not yet returned.
    pub fn outstanding(&self) -> (n: usize)
        requires
            self.wf(),
        ensures
            n == checked_out(self.view()).len(),
    {
        self.outstanding
    }

    /// Closes the store. Every value checked out must have been checked in
    /// first: a checkout must not outlive its store.
    pub fn close(self)
        requires
            self.wf(),
            checked_out(self.view()).len() == 0,
    {
    }

    /// Whether `key` holds a live value (present or checked out).
    pub fn contains_key(&self, key: K) -> (r: bool)
        requires
            self.wf(),
        ensures
            r == remove_result(self.view(), key),
    {
        match self.store.get(&key) {
            Some(v) => match v {
                StoreState::Present(_) | StoreState::Loaned => true,
                StoreState::AwaitingDrop => false,
            },
            None => false,
        }
    }

    /// Stores `val` under `key`, replacing a present value. A checked-out
    /// key cannot be overwritten.
    pub fn insert(&mut self, key: K, val: V)
        requires
            old(self).wf(),
            old(self).view().contains_key(key) ==> old(self).view()[key] is Present,
        ensures
            final(self).wf(),
            final(self).view() == old(self).view().insert(key, StoreState::Present(val)),
    {
        let ghost pre = self.store@;
        self.store.insert(key, StoreState::Present(val));
        assert(checked_out(self.store@) =~= checked_out(pre));
    }

    /// Removes `key`. A present value is dropped at once, a checked-out one
    /// when it is checked in. Returns whether a live value was removed.
    pub fn remove(&mut self, key: K) -> (r: bool)
        requires
            old(self).wf(),
        ensures
            final(self).wf(),
            r == remove_result(old(self).view(), key),
            final(self).view() == after_remove(old(self).view(), key),
    {
        let ghost pre = self.store@;
        match self.store.get(&key) {
            None => false,
            Some(StoreState::Present(_)) => {
                self.store.remove(&key);
                assert(checked_out(self.store@) =~= checked_out(pre));
                true
            },
            Some(StoreState::Loaned) => {
                self.store.insert(key, StoreState::AwaitingDrop);
                assert(checked_out(self.store@) =~= checked_out(pre));
                true
            },
            Some(StoreState::AwaitingDrop) => false,
        }
    }

    /// Checks out the value under `key`, if there is one. A value that is
    /// already checked out cannot be checked out again.
    pub fn checkout(&mut self, key: K) -> (g: Option<DropGuard<K, V>>)
        requires
            old(self).wf(),
            old(self).view().contains_key(key) ==> old(self).view()[key] is Present,
        ensures
            final(self).wf(),
            !old(self).view().contains_key(key) ==> g is None && final(self).view() == old(
                self,
            ).view(),
            old(self).view().contains_key(key) ==> {
                &&& g is Some
                &&& g->0.spec_key() == key
                &&& old(self).view()[key] == StoreState::Present(g->0.spec_value())
                &&& final(self).view() == after_checkout(old(self).view(), key)
            },
    {
        let ghost pre = self.store@;
        if !self.store.contains_key(&key) {
            return None;
        }
        let prev = self.store.insert(key, StoreState::Loaned);
        match prev {
            Some(StoreState::Present(val)) => {
                proof {
                    assert(checked_out(self.store@) =~= checked_out(pre).insert(key));
                    self.lemma_count_bounded();
                }
                self.outstanding = self.outstanding + 1;
                Some(DropGuard { key, inner: val })
            },
            _ => {
                proof {
                    assert(false);
                }
                None
            },
        }
    }

    /// Hands a checked-out value back. If its key was removed meanwhile,
    /// the value is dropped.
    pub fn checkin(&mut self, guard: DropGuard<K, V>)
        requires
            old(self).wf(),
            old(self).view().contains_key(guard.spec_key()),
            !(old(self).view()[guard.spec_key()] is Present),
        ensures
            final(self).wf(),
            final(self).view() == after_checkin(
                old(self).view(),
                guard.spec_key(),
                guard.spec_value(),
            ),
    {
        let ghost pre = self.store@;
        let DropGuard { key, inner } = guard;
        assert(checked_out(pre).contains(key));
        let prev = self.store.insert(key, StoreState::Present(inner));
        match prev {
            Some(StoreState::AwaitingDrop) => {
                self.store.remove(&key);
            },
            _ => {},
        }
        assert(checked_out(self.store@) =~= checked_out(pre).remove(key));
        self.outstanding = self.outstanding - 1;
    }
}

/// Checking a value out and straight back in leaves the store as it was.
pub proof fn lemma_checkout_checkin<K, V>(m: Map<K, StoreState<V>>, key: K, val: V)
    requires
        m.contains_key(key),
        m[key] == StoreState::Present(val),
    ensures
        after_checkin(after_checkout(m, key), key, val) == m,
{
    assert(after_checkin(after_checkout(m, key), key, val) =~= m);
}

/// Removing a key twice is the same as removing it once, and the second
/// removal reports that nothing live was removed.
pub proof fn lemma_remove_idempotent<K, V>(m: Map<K, StoreState<V>>, key: K)
    ensures
        after_remove(after_remove(m, key), key) == after_remove(m, key),
        !remove_result(after_remove(m, key), key),
{
    if m.contains_key(key) {
        match m[key] {
            StoreState::Present(_) => {},
            StoreState::Loaned => {
                assert(after_remove(m, key)[key] is AwaitingDrop);
            },
            StoreState::AwaitingDrop => {},
        }
    }
}

/// A removed key that was checked out is gone for good once its value is checked in.
pub proof fn lemma_remove_then_checkin<K, V>(m: Map<K, StoreState<V>>, key: K, val: V)
    requires
        m.contains_key(key),
        m[key] is Loaned,
    ensures
        after_checkin(after_remove(m, key), key, val) == m.remove(key),
        !after_checkin(after_remove(m, key), key, val).contains_key(key),
{
    assert(after_checkin(after_remove(m, key), key, val) =~= m.remove(key));
}

} // verus!
