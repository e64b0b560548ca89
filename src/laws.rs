use vstd::prelude::*;

use crate::{lookup, Mappable, MerkleRootStorage};

verus! {

/// A key that a table does not hold is reported absent: `get` finds nothing and
/// `contains_key` says `false`.
pub proof fn lemma_absent_key<Type: Mappable>(
    table: Map<Type::Key, Type::GetValue>,
    key: Type::Key,
)
    requires
        !table.contains_key(key),
    ensures
        lookup(table, key) == None::<Type::GetValue>,
{
}

/// After `insert(key, value)`, `get(key)` finds the stored form of `value` and
/// `contains_key(key)` says `true`.
pub proof fn lemma_get_after_insert<Type: Mappable>(
    table: Map<Type::Key, Type::GetValue>,
    key: Type::Key,
    value: &Type::SetValue,
)
    ensures
        lookup(table.insert(key, Type::stored(value)), key) == Some(Type::stored(value)),
        table.insert(key, Type::stored(value)).contains_key(key),
{
}

/// A second `insert` under the same key hands back the value of the first, and a
/// later `get` finds the value of the second.
pub proof fn lemma_insert_displaces<Type: Mappable>(
    table: Map<Type::Key, Type::GetValue>,
    key: Type::Key,
    first: &Type::SetValue,
    second: &Type::SetValue,
)
    ensures
        ({
            let once = table.insert(key, Type::stored(first));
            let twice = once.insert(key, Type::stored(second));
            &&& lookup(once, key) == Some(Type::stored(first))
            &&& lookup(twice, key) == Some(Type::stored(second))
        }),
{
}

/// `remove` after `insert(key, value)` hands back the stored form of `value`;
/// afterwards `get(key)` finds nothing and `contains_key(key)` says `false`.
pub proof fn lemma_remove_after_insert<Type: Mappable>(
    table: Map<Type::Key, Type::GetValue>,
    key: Type::Key,
    value: &Type::SetValue,
)
    ensures
        ({
            let inserted = table.insert(key, Type::stored(value));
            let removed = inserted.remove(key);
            &&& lookup(inserted, key) == Some(Type::stored(value))
            &&& lookup(removed, key) == None::<Type::GetValue>
            &&& !removed.contains_key(key)
        }),
{
}

/// Removing a key that the table does not hold hands back nothing and leaves the
/// table as it was.
pub proof fn lemma_remove_absent<Type: Mappable>(
    table: Map<Type::Key, Type::GetValue>,
    key: Type::Key,
)
    requires
        !table.contains_key(key),
    ensures
        lookup(table, key) == None::<Type::GetValue>,
        table.remove(key) == table,
{
    assert(table.remove(key) =~= table);
}

/// The merkle root of a grouping key depends on the table's contents alone: two
/// stores that hold the same entries report the same root, and so does one store
/// asked twice with no write in between.
pub proof fn lemma_root_determined<Key, StorageType: Mappable, S: MerkleRootStorage<Key, StorageType>>(
    first: &S,
    second: &S,
    key: Key,
)
    requires
        first.table() == second.table(),
    ensures
        S::root_of(key, first.table()) == S::root_of(key, second.table()),
{
}

} // verus!
