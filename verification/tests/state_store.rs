//! The type-erased state store: one slot per type, last write wins, and a
//! lookup before any insert reports the missing type by name.

use bonk_kernel::AnyValue;
use bonk_kernel::EngineError;
use bonk_kernel::StateManager;

#[derive(Debug)]
struct Counter(i32);

#[test]
fn insert_then_get_returns_value() {
    let mut store = StateManager::new();
    store.insert_state(Counter(42));
    let got = store.get_state::<Counter>("Counter").unwrap();
    assert_eq!(got.0, 42);
}

#[test]
fn last_write_wins_single_slot() {
    let mut store = StateManager::new();
    store.insert_state(42u64);
    store.insert_state(69u64);
    let got = store.get_state::<u64>("u64").unwrap();
    assert_eq!(*got, 69);
}

#[test]
fn get_before_insert_names_the_type() {
    let mut store = StateManager::new();
    let err = store.get_state::<Counter>("Counter").unwrap_err();
    assert!(matches!(err, EngineError::UninitialisedState("Counter")));
}

#[test]
fn distinct_types_have_distinct_slots() {
    let mut store = StateManager::new();
    store.insert_state(7u64);
    store.insert_state(Counter(-3));
    assert_eq!(*store.get_state::<u64>("u64").unwrap(), 7);
    assert_eq!(store.get_state::<Counter>("Counter").unwrap().0, -3);
}

#[test]
fn mutation_through_reference_persists() {
    let mut store = StateManager::new();
    store.insert_state(Counter(1));
    {
        let c = store.get_state::<Counter>("Counter").unwrap();
        c.0 = 99;
    }
    assert_eq!(store.get_state::<Counter>("Counter").unwrap().0, 99);
}

#[test]
fn keyed_access_matches_generic_access() {
    let mut store = StateManager::new();
    let key = std::any::TypeId::of::<u32>();
    store.insert_for_key(key, AnyValue::erase(5u32));
    let slot = store.get_for_key(key, "u32").unwrap();
    assert_eq!(*slot.downcast_mut::<u32>().unwrap(), 5);
    assert_eq!(*store.get_state::<u32>("u32").unwrap(), 5);
}

#[test]
fn keyed_lookup_misses_for_unused_key() {
    let mut store = StateManager::new();
    store.insert_for_key(std::any::TypeId::of::<u32>(), AnyValue::erase(5u32));
    let err = match store.get_for_key(std::any::TypeId::of::<u64>(), "u64") {
        Ok(_) => panic!("lookup for an unused key must miss"),
        Err(e) => e,
    };
    assert!(matches!(err, EngineError::UninitialisedState("u64")));
}

#[test]
fn keyed_insert_replaces_in_place() {
    let mut store = StateManager::new();
    let key = std::any::TypeId::of::<Counter>();
    store.insert_for_key(key, AnyValue::erase(Counter(1)));
    store.insert_for_key(key, AnyValue::erase(Counter(2)));
    let slot = store.get_for_key(key, "Counter").unwrap();
    assert_eq!(slot.downcast_mut::<Counter>().unwrap().0, 2);
}

#[test]
fn downcast_to_wrong_type_fails() {
    let mut value = AnyValue::erase(3u8);
    assert!(value.downcast_mut::<u16>().is_none());
    assert_eq!(*value.downcast_mut::<u8>().unwrap(), 3);
}
