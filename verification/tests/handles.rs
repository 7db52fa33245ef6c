use archive_bridge::release_handle;
use archive_bridge::BridgeError;
use archive_bridge::Handle;
use archive_bridge::HandleTable;

#[test]
fn null_handle_is_zero() {
    assert_eq!(Handle::null().to_raw(), 0);
    assert!(Handle::null().is_null());
    assert!(Handle::from_raw(0).is_null());
    assert_eq!(Handle::from_raw(0), Handle::null());
}

#[test]
fn raw_number_holds_generation_above_slot() {
    let h = Handle { slot: 3, generation: 2 };
    assert_eq!(h.to_raw(), 0x0000_0002_0000_0003);
    assert_eq!(Handle::from_raw(0x0000_0002_0000_0003), h);
    assert!(!h.is_null());
}

#[test]
fn raw_number_round_trips_at_the_limits() {
    let h = Handle { slot: u32::MAX, generation: u32::MAX };
    assert_eq!(h.to_raw(), u64::MAX);
    assert_eq!(Handle::from_raw(u64::MAX), h);
    let g = Handle { slot: 0, generation: 1 };
    assert_eq!(g.to_raw(), 0x1_0000_0000);
    assert!(!g.is_null());
    assert_eq!(Handle::from_raw(g.to_raw()), g);
}

#[test]
fn new_table_is_empty_and_has_room() {
    let table: HandleTable<u32> = HandleTable::new();
    assert!(table.has_room());
    assert!(!table.contains(Handle::null()));
    assert!(!table.contains(Handle { slot: 1, generation: 0 }));
    assert_eq!(table.get(Handle { slot: 1, generation: 0 }), None);
}

#[test]
fn inserted_object_is_found_under_its_handle() {
    let mut table: HandleTable<u32> = HandleTable::new();
    let a = table.insert(7);
    let b = table.insert(9);
    assert!(!a.is_null());
    assert!(!b.is_null());
    assert_ne!(a, b);
    assert!(table.contains(a));
    assert_eq!(table.get(a), Some(&7));
    assert_eq!(table.get(b), Some(&9));
}

#[test]
fn released_object_is_handed_back_and_gone() {
    let mut table: HandleTable<String> = HandleTable::new();
    let a = table.insert("first".to_string());
    let b = table.insert("second".to_string());
    assert_eq!(table.release(a), Some("first".to_string()));
    assert!(!table.contains(a));
    assert_eq!(table.get(a), None);
    assert_eq!(table.get(b), Some(&"second".to_string()));
    assert_eq!(table.release(a), None);
    assert_eq!(table.get(b), Some(&"second".to_string()));
}

#[test]
fn released_handle_never_names_a_later_object() {
    let mut table: HandleTable<u32> = HandleTable::new();
    let a = table.insert(1);
    assert_eq!(table.release(a), Some(1));
    let mut later: Vec<Handle> = Vec::new();
    for value in 0..50u32 {
        let h = table.insert(value);
        assert_ne!(h, a);
        assert!(!later.contains(&h));
        later.push(h);
        assert!(!table.contains(a));
        if value % 3 == 0 {
            assert_eq!(table.release(h), Some(value));
            assert!(!table.contains(h));
        }
    }
    assert_eq!(table.get(a), None);
}

#[test]
fn slot_is_used_again_under_the_next_generation() {
    let mut table: HandleTable<u32> = HandleTable::new();
    let a = table.insert(1);
    assert_eq!(table.release(a), Some(1));
    let b = table.insert(2);
    assert_eq!(b.slot, a.slot);
    assert_eq!(b.generation, a.generation + 1);
    assert_eq!(table.get(b), Some(&2));
    assert_eq!(table.get(a), None);
}

#[test]
fn releasing_the_null_handle_does_nothing() {
    let mut table: HandleTable<u32> = HandleTable::new();
    assert_eq!(release_handle(&mut table, Handle::null()), Ok(None));
    let a = table.insert(5);
    assert_eq!(release_handle(&mut table, Handle::null()), Ok(None));
    assert_eq!(table.get(a), Some(&5));
    assert_eq!(release_handle(&mut table, Handle::from_raw(0)), Ok(None));
    assert_eq!(table.get(a), Some(&5));
}

#[test]
fn releasing_once_succeeds_and_twice_is_reported() {
    let mut table: HandleTable<u32> = HandleTable::new();
    let a = table.insert(5);
    let b = table.insert(6);
    assert_eq!(release_handle(&mut table, a), Ok(Some(5)));
    assert_eq!(release_handle(&mut table, a), Err(BridgeError::InvalidHandle));
    assert_eq!(table.get(b), Some(&6));
}

#[test]
fn releasing_a_handle_never_given_out_is_reported() {
    let mut table: HandleTable<u32> = HandleTable::new();
    let a = table.insert(5);
    let forged = Handle { slot: a.slot, generation: a.generation + 1 };
    assert_eq!(release_handle(&mut table, forged), Err(BridgeError::InvalidHandle));
    let beyond = Handle { slot: 40, generation: 0 };
    assert_eq!(release_handle(&mut table, beyond), Err(BridgeError::InvalidHandle));
    let no_slot = Handle { slot: 0, generation: 1 };
    assert_eq!(release_handle(&mut table, no_slot), Err(BridgeError::InvalidHandle));
    assert_eq!(table.get(a), Some(&5));
}
