use std::borrow::Cow;
use std::marker::PhantomData;
use vstd::prelude::*;

mod laws;
mod memory;

pub use laws::{
    lemma_absent_key, lemma_get_after_insert, lemma_insert_displaces, lemma_remove_absent,
    lemma_remove_after_insert, lemma_root_determined,
};
pub use memory::{MemoryStore, PlainTable};

verus! {

/// Merkle root alias type.
pub type MerkleRoot = [u8; 32];

/// Table descriptor: fixes the key type and the two value shapes of one table.
pub trait Mappable {
    type Key;
    type SetValue: ?Sized;
    type GetValue: Clone;

    /// The value that a table holds after `value` was written to it.
    spec fn stored(value: &Self::SetValue) -> Self::GetValue;
}

/// The value carried by a `Cow`, whether borrowed or owned.
pub open spec fn cow_value<V: Clone>(c: Cow<V>) -> V {
    match c {
        Cow::Borrowed(b) => *b,
        Cow::Owned(o) => o,
    }
}

/// The values carried by an answer of `get`.
pub open spec fn owned<V: Clone>(found: Option<Cow<V>>) -> Option<V> {
    match found {
        Some(c) => Some(cow_value(c)),
        None => None,
    }
}

/// What `map` holds under `key`, if anything.
pub open spec fn lookup<K, V>(map: Map<K, V>, key: K) -> Option<V> {
    if map.contains_key(key) {
        Some(map[key])
    } else {
        None
    }
}

/// Errors of a store for the table `Type`, and the contents it holds for that table.
pub trait StorageError<Type: Mappable> {
    type Error;

    /// The entries of table `Type` that this store holds.
    spec fn table(&self) -> Map<Type::Key, Type::GetValue>;
}

/// Read access to the table `Type`.
pub trait StorageInspect<Type: Mappable>: StorageError<Type> {
    /// Retrieve the value that `key` maps to, borrowed or owned.
    fn get(&self, key: &Type::Key) -> (r: Result<Option<Cow<Type::GetValue>>, Self::Error>)
        ensures
            r matches Ok(found) ==> owned(found) == lookup(self.table(), *key),
    ;

    /// Return `true` if there is a value under `key`.
    fn contains_key(&self, key: &Type::Key) -> (r: Result<bool, Self::Error>)
        ensures
            r matches Ok(present) ==> present == self.table().contains_key(*key),
    ;
}

/// Write access to the table `Type`.
pub trait StorageMutate<Type: Mappable>: StorageError<Type> {
    /// Map `key` to `value`, returning the value it displaced, if any.
    fn insert(&mut self, key: &Type::Key, value: &Type::SetValue) -> (r: Result<
        Option<Type::GetValue>,
        Self::Error,
    >)
        ensures
            r matches Ok(prev) ==> {
                &&& prev == lookup(old(self).table(), *key)
                &&& final(self).table() == old(self).table().insert(*key, Type::stored(value))
            },
    ;

    /// Remove the mapping of `key`, returning the value it held, if any.
    fn remove(&mut self, key: &Type::Key) -> (r: Result<Option<Type::GetValue>, Self::Error>)
        ensures
            r matches Ok(prev) ==> {
                &&& prev == lookup(old(self).table(), *key)
                &&& final(self).table() == old(self).table().remove(*key)
            },
    ;
}

/// Full read and write access to the table `Type`.
pub trait Storage<Type: Mappable>: StorageMutate<Type> + StorageInspect<Type> {}

/// Storage whose table `StorageType` is committed into merkle trees, one per grouping `Key`.
pub trait MerkleRootStorage<Key, StorageType>: Storage<StorageType> where StorageType: Mappable {
    /// The root that the tree of grouping key `key` has over the contents `table`.
    spec fn root_of(key: Key, table: Map<StorageType::Key, StorageType::GetValue>) -> MerkleRoot;

    /// Return the merkle root of the tree of grouping key `key`.
    fn root(&mut self, key: &Key) -> (r: Result<MerkleRoot, Self::Error>)
        ensures
            r matches Ok(root) ==> {
                &&& root == Self::root_of(*key, old(self).table())
                &&& final(self).table() == old(self).table()
            },
    ;
}

/// A view of a store that offers only the reads of the table `Type`.
pub struct StorageRef<'a, T: 'a + ?Sized, Type: Mappable>(&'a T, PhantomData<Type>);

impl<'a, T: StorageInspect<Type> + 'a + ?Sized, Type: Mappable> StorageRef<'a, T, Type> {
    /// The entries of table `Type` in the viewed store.
    pub closed spec fn table(&self) -> Map<Type::Key, Type::GetValue> {
        self.0.table()
    }

    /// Retrieve the value that `key` maps to in the viewed store.
    pub fn get(self, key: &Type::Key) -> (r: Result<Option<Cow<'a, Type::GetValue>>, T::Error>)
        ensures
            r matches Ok(found) ==> owned(found) == lookup(self.table(), *key),
    {
        self.0.get(key)
    }

    /// Return `true` if the viewed store has a value under `key`.
    pub fn contains_key(self, key: &Type::Key) -> (r: Result<bool, T::Error>)
        ensures
            r matches Ok(present) ==> present == self.table().contains_key(*key),
    {
        self.0.contains_key(key)
    }
}

/// Gives any store a read-only view of one of its tables.
pub trait StorageAsRef<Error> {
    /// The read-only view of table `Type` of this store.
    fn storage<Type>(&self) -> (r: StorageRef<Self, Type>)
        where Self: StorageInspect<Type, Error = Error>, Type: Mappable
        ensures
            r.table() == self.table(),
    {
        StorageRef(self, PhantomData)
    }
}

impl<T: ?Sized, Error> StorageAsRef<Error> for T {}

/// A view of a store that offers the reads and the writes of the table `Type`.
pub struct StorageMut<'a, T: 'a + ?Sized, Type: Mappable>(pub &'a mut T, pub PhantomData<Type>);

impl<'a, T: Storage<Type> + 'a + ?Sized, Type: Mappable> StorageMut<'a, T, Type> {
    /// Retrieve the value that `key` maps to in the viewed store.
    pub fn get(self, key: &Type::Key) -> (r: Result<Option<Cow<'a, Type::GetValue>>, T::Error>)
        ensures
            r matches Ok(found) ==> owned(found) == lookup(old(self.0).table(), *key),
            final(self.0).table() == old(self.0).table(),
    {
        let store: &'a T = self.0;
        store.get(key)
    }

    /// Return `true` if the viewed store has a value under `key`.
    pub fn contains_key(self, key: &Type::Key) -> (r: Result<bool, T::Error>)
        ensures
            r matches Ok(present) ==> present == old(self.0).table().contains_key(*key),
            final(self.0).table() == old(self.0).table(),
    {
        let store: &'a T = self.0;
        store.contains_key(key)
    }

    /// Map `key` to `value` in the viewed store, returning the value it displaced, if any.
    pub fn insert(self, key: &Type::Key, value: &Type::SetValue) -> (r: Result<
        Option<Type::GetValue>,
        T::Error,
    >)
        ensures
            r matches Ok(prev) ==> {
                &&& prev == lookup(old(self.0).table(), *key)
                &&& final(self.0).table() == old(self.0).table().insert(*key, Type::stored(value))
            },
    {
        StorageMutate::insert(self.0, key, value)
    }

    /// Remove the mapping of `key` in the viewed store, returning the value it held, if any.
    pub fn remove(self, key: &Type::Key) -> (r: Result<Option<Type::GetValue>, T::Error>)
        ensures
            r matches Ok(prev) ==> {
                &&& prev == lookup(old(self.0).table(), *key)
                &&& final(self.0).table() == old(self.0).table().remove(*key)
            },
    {
        StorageMutate::remove(self.0, key)
    }
}

/// Gives any store a read and write view of one of its tables.
pub trait StorageAsMut<Error> {
    /// The read and write view of table `Type` of this store.
    fn storage<Type>(&mut self) -> (r: StorageMut<Self, Type>)
        where Self: Storage<Type, Error = Error>, Type: Mappable
        ensures
            r.0.table() == old(self).table(),
            final(r.0).table() == final(self).table(),
    {
        StorageMut(self, PhantomData)
    }
}

impl<T: ?Sized, Error> StorageAsMut<Error> for T {}

} // verus!
