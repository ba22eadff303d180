use shmemj::handle_table::HandleTable;

#[test]
fn new_table_resolves_nothing() {
    let t: HandleTable<u32> = HandleTable::new();
    assert!(t.resolve(0).is_none());
    assert!(t.resolve(1).is_none());
    assert!(t.resolve(u64::MAX).is_none());
}

#[test]
fn inserted_resource_resolves_by_its_handle() {
    let mut t: HandleTable<u32> = HandleTable::new();
    let a = t.insert(10).unwrap();
    let b = t.insert(20).unwrap();
    assert_ne!(a, 0);
    assert_ne!(b, 0);
    assert_ne!(a, b);
    assert_eq!(t.resolve(a), Some(&10));
    assert_eq!(t.resolve(b), Some(&20));
}

#[test]
fn first_handles_are_slot_numbers() {
    let mut t: HandleTable<u32> = HandleTable::new();
    assert_eq!(t.insert(1), Some(1));
    assert_eq!(t.insert(2), Some(2));
    assert_eq!(t.insert(3), Some(3));
}

#[test]
fn remove_returns_the_resource_once() {
    let mut t: HandleTable<u32> = HandleTable::new();
    let a = t.insert(7).unwrap();
    assert_eq!(t.remove(a), Some(7));
    assert!(t.resolve(a).is_none());
    assert_eq!(t.remove(a), None);
    assert_eq!(t.remove(0), None);
}

#[test]
fn reused_slot_gets_a_new_handle() {
    let mut t: HandleTable<u32> = HandleTable::new();
    let a = t.insert(1).unwrap();
    assert_eq!(t.remove(a), Some(1));
    let b = t.insert(2).unwrap();
    assert_ne!(a, b);
    assert_eq!(b, a + 0x1_0000_0000);
    assert!(t.resolve(a).is_none());
    assert_eq!(t.remove(a), None);
    assert_eq!(t.resolve(b), Some(&2));
}

#[test]
fn removing_one_handle_leaves_the_others() {
    let mut t: HandleTable<u32> = HandleTable::new();
    let a = t.insert(1).unwrap();
    let b = t.insert(2).unwrap();
    let c = t.insert(3).unwrap();
    assert_eq!(t.remove(b), Some(2));
    assert_eq!(t.resolve(a), Some(&1));
    assert_eq!(t.resolve(c), Some(&3));
    let d = t.insert(4).unwrap();
    assert_ne!(d, b);
    assert_eq!(t.resolve(d), Some(&4));
    assert!(t.resolve(b).is_none());
}

#[test]
fn handle_with_zero_slot_bits_is_never_live() {
    let mut t: HandleTable<u32> = HandleTable::new();
    let _ = t.insert(1).unwrap();
    assert!(t.resolve(0x1_0000_0000).is_none());
    assert_eq!(t.remove(0x1_0000_0000), None);
}
