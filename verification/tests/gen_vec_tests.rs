use wayvr::gen_vec::{GenHandle, GenVec};

#[test]
fn added_object_is_found_by_its_handle() {
    let mut v: GenVec<u32> = GenVec::new();
    let a = v.add(10);
    let b = v.add(20);
    assert_eq!(a, GenHandle::new(0, 1));
    assert_eq!(b, GenHandle::new(1, 2));
    assert_eq!(v.get(&a), Some(&10));
    assert_eq!(v.get(&b), Some(&20));
}

#[test]
fn removed_handle_is_dead_and_slot_is_reused_under_new_generation() {
    let mut v: GenVec<u32> = GenVec::new();
    let a = v.add(10);
    let _b = v.add(20);
    v.remove(&a);
    assert_eq!(v.get(&a), None);
    let c = v.add(30);
    assert_eq!(c.idx, 0);
    assert_eq!(c.generation, 3);
    assert_eq!(v.get(&a), None);
    assert_eq!(v.get(&c), Some(&30));
    assert_eq!(v.len(), 2);
}

#[test]
fn stale_or_out_of_range_remove_changes_nothing() {
    let mut v: GenVec<u32> = GenVec::new();
    let a = v.add(1);
    v.remove(&GenHandle::new(0, 5));
    v.remove(&GenHandle::new(9, 1));
    assert_eq!(v.get(&a), Some(&1));
}

#[test]
fn reset_handle_names_nothing() {
    let mut v: GenVec<u32> = GenVec::new();
    let mut a = v.add(1);
    assert!(a.is_set());
    a.reset();
    assert!(!a.is_set());
    assert_eq!(a.id(), 0);
    assert_eq!(v.get(&a), None);
}

#[test]
fn slot_gives_live_object_with_handle() {
    let mut v: GenVec<u32> = GenVec::new();
    let a = v.add(5);
    let (h, o) = v.slot(0).unwrap();
    assert_eq!(h, a);
    assert_eq!(*o, 5);
    assert!(v.slot(1).is_none());
}
