use std::borrow::Cow;
use std::collections::BTreeMap;
use std::convert::Infallible;
use std::marker::PhantomData;
use vstd::laws_cmp::obeys_cmp;
use vstd::prelude::*;

use crate::{Mappable, Storage, StorageError, StorageInspect, StorageMutate};

verus! {

broadcast use vstd::std_specs::btree::group_btree_axioms;

/// A table whose values are written and read in the same shape `V`.
pub struct PlainTable<K, V>(PhantomData<(K, V)>);

impl<K, V: Clone> Mappable for PlainTable<K, V> {
    type Key = K;
    type SetValue = V;
    type GetValue = V;

    open spec fn stored(value: &V) -> V {
        *value
    }
}

/// A store that keeps one plain table in memory. It never fails.
pub struct MemoryStore<K: Ord, V> {
    entries: BTreeMap<K, V>,
}

impl<K: Ord, V> MemoryStore<K, V> {
    #[verifier::type_invariant]
    closed spec fn keys_ordered(&self) -> bool {
        obeys_cmp::<K>()
    }

    /// The entries that the store holds.
    pub closed spec fn entries(&self) -> Map<K, V> {
        self.entries@
    }

    /// An empty store.
    pub fn new() -> (r: Self)
        requires
            obeys_cmp::<K>(),
        ensures
            r.entries() == Map::<K, V>::empty(),
    {
        MemoryStore { entries: BTreeMap::new() }
    }

    /// Moves the entries out, leaving the store empty.
    fn take_entries(&mut self) -> (r: BTreeMap<K, V>)
        ensures
            r@ == old(self).entries(),
            obeys_cmp::<K>(),
    {
        proof {
            use_type_invariant(&*self);
        }
        let mut taken = MemoryStore { entries: BTreeMap::new() };
        std::mem::swap(self, &mut taken);
        taken.entries
    }
}

impl<K: Ord + Copy, V: Copy> StorageError<PlainTable<K, V>> for MemoryStore<K, V> {
    type Error = Infallible;

    open spec fn table(&self) -> Map<K, V> {
        self.entries()
    }
}

impl<K: Ord + Copy, V: Copy> StorageInspect<PlainTable<K, V>> for MemoryStore<K, V> {
    fn get(&self, key: &K) -> (r: Result<Option<Cow<V>>, Infallible>)
        ensures
            r is Ok,
    {
        proof {
            use_type_invariant(self);
        }
        match self.entries.get(key) {
            Some(value) => Ok(Some(Cow::Borrowed(value))),
            None => Ok(None),
        }
    }

    fn contains_key(&self, key: &K) -> (r: Result<bool, Infallible>)
        ensures
            r is Ok,
    {
        proof {
            use_type_invariant(self);
        }
        Ok(self.entries.contains_key(key))
    }
}

impl<K: Ord + Copy, V: Copy> StorageMutate<PlainTable<K, V>> for MemoryStore<K, V> {
    fn insert(&mut self, key: &K, value: &V) -> (r: Result<Option<V>, Infallible>)
        ensures
            r is Ok,
    {
        let mut entries = self.take_entries();
        let prev = entries.insert(*key, *value);
        *self = MemoryStore { entries };
        Ok(prev)
    }

    fn remove(&mut self, key: &K) -> (r: Result<Option<V>, Infallible>)
        ensures
            r is Ok,
    {
        let mut entries = self.take_entries();
        let prev = entries.remove(key);
        *self = MemoryStore { entries };
        Ok(prev)
    }
}

impl<K: Ord + Copy, V: Copy> Storage<PlainTable<K, V>> for MemoryStore<K, V> {

}

} // verus!
