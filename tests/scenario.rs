use std::borrow::Cow;

use fuel_storage::{
    MemoryStore, PlainTable, StorageAsMut, StorageAsRef, StorageInspect, StorageMutate,
};

type Balances = PlainTable<u128, u64>;

fn read(store: &MemoryStore<u128, u64>, key: u128) -> Option<u64> {
    StorageInspect::<Balances>::get(store, &key)
        .unwrap()
        .map(|value| value.into_owned())
}

#[test]
fn balances_end_to_end() {
    let mut store = MemoryStore::<u128, u64>::new();
    assert_eq!((&mut store).storage::<Balances>().insert(&7, &100), Ok(None));
    assert_eq!((&mut store).storage::<Balances>().insert(&7, &150), Ok(Some(100)));
    let found = store.storage::<Balances>().get(&7).unwrap().map(|c| c.into_owned());
    assert_eq!(found, Some(150));
    assert_eq!((&mut store).storage::<Balances>().remove(&7), Ok(Some(150)));
    assert_eq!(store.storage::<Balances>().get(&7), Ok(None));
}

#[test]
fn fresh_key_is_absent() {
    let mut store = MemoryStore::<u128, u64>::new();
    assert_eq!(StorageInspect::<Balances>::contains_key(&store, &3), Ok(false));
    assert_eq!(StorageInspect::<Balances>::get(&store, &3), Ok(None));
    store.insert(&4, &40).unwrap();
    assert_eq!(StorageInspect::<Balances>::contains_key(&store, &3), Ok(false));
    assert_eq!(read(&store, 3), None);
}

#[test]
fn insert_then_get() {
    let mut store = MemoryStore::<u128, u64>::new();
    assert_eq!(store.insert(&1, &11), Ok(None));
    assert_eq!(read(&store, 1), Some(11));
    assert_eq!(StorageInspect::<Balances>::contains_key(&store, &1), Ok(true));
}

#[test]
fn get_borrows_the_stored_value() {
    let mut store = MemoryStore::<u128, u64>::new();
    store.insert(&2, &22).unwrap();
    let found = StorageInspect::<Balances>::get(&store, &2).unwrap();
    assert!(matches!(found, Some(Cow::Borrowed(&22))));
}

#[test]
fn second_insert_displaces_first() {
    let mut store = MemoryStore::<u128, u64>::new();
    assert_eq!(store.insert(&5, &1), Ok(None));
    assert_eq!(store.insert(&5, &2), Ok(Some(1)));
    assert_eq!(read(&store, 5), Some(2));
}

#[test]
fn remove_after_insert() {
    let mut store = MemoryStore::<u128, u64>::new();
    store.insert(&9, &90).unwrap();
    assert_eq!(StorageMutate::<Balances>::remove(&mut store, &9), Ok(Some(90)));
    assert_eq!(read(&store, 9), None);
    assert_eq!(StorageInspect::<Balances>::contains_key(&store, &9), Ok(false));
}

#[test]
fn remove_absent_is_a_no_op() {
    let mut store = MemoryStore::<u128, u64>::new();
    store.insert(&1, &10).unwrap();
    assert_eq!(StorageMutate::<Balances>::remove(&mut store, &2), Ok(None));
    assert_eq!(StorageMutate::<Balances>::remove(&mut store, &2), Ok(None));
    assert_eq!(read(&store, 1), Some(10));
    assert_eq!(read(&store, 2), None);
}

#[test]
fn views_agree_with_direct_calls() {
    let mut direct = MemoryStore::<u128, u64>::new();
    let mut viewed = MemoryStore::<u128, u64>::new();
    let steps: [(u128, u64); 4] = [(1, 10), (2, 20), (1, 30), (u128::MAX, u64::MAX)];
    for (key, value) in steps {
        let a = direct.insert(&key, &value);
        let b = (&mut viewed).storage::<Balances>().insert(&key, &value);
        assert_eq!(a, b);
    }
    for key in [0u128, 1, 2, u128::MAX] {
        assert_eq!(
            StorageInspect::<Balances>::get(&direct, &key),
            viewed.storage::<Balances>().get(&key)
        );
        assert_eq!(
            StorageInspect::<Balances>::contains_key(&direct, &key),
            (&mut viewed).storage::<Balances>().contains_key(&key)
        );
        let through_mut = (&mut viewed)
            .storage::<Balances>()
            .get(&key)
            .map(|found| found.map(|c| c.into_owned()));
        assert_eq!(through_mut, Ok(read(&direct, key)));
    }
    for key in [1u128, 3] {
        assert_eq!(
            StorageMutate::<Balances>::remove(&mut direct, &key),
            (&mut viewed).storage::<Balances>().remove(&key)
        );
    }
    assert_eq!(read(&direct, 1), None);
    assert_eq!(read(&viewed, 1), None);
    assert_eq!(read(&viewed, 2), Some(20));
}
