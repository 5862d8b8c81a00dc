use runestick::heap::Heap;
use runestick::shared::{AccessError, RawMut, RawRef, Shared, Slab};

#[test]
fn a_new_cell_can_be_read_and_written() {
    let mut slab: Slab<i32> = Slab::new();
    assert_eq!(slab.len(), 0);
    let a = slab.insert(1);
    let b = slab.insert(2);
    assert_eq!(a, Shared { index: 0 });
    assert_eq!(b, Shared { index: 1 });
    assert_eq!(slab.len(), 2);
    assert_eq!(slab.get_ref(a), Ok(&1));
    *slab.get_mut(b).unwrap() = 5;
    assert_eq!(slab.get_ref(b), Ok(&5));
    assert!(slab.is_readable(a));
    assert!(slab.is_writable(a));
}

#[test]
fn a_handle_without_a_cell_gives_access_errors() {
    let mut slab: Slab<i32> = Slab::new();
    let nowhere = Shared { index: 3 };
    assert_eq!(slab.get_ref(nowhere), Err(AccessError::NotAccessibleRef));
    assert_eq!(slab.get_mut(nowhere).err(), Some(AccessError::NotAccessibleMut));
    assert_eq!(slab.take(nowhere), Err(AccessError::NotAccessibleTake));
    assert_eq!(slab.acquire_ref(nowhere), Err(AccessError::NotAccessibleRef));
    assert_eq!(slab.acquire_mut(nowhere), Err(AccessError::NotAccessibleMut));
    assert_eq!(slab.lend(nowhere).err(), Some(AccessError::NotAccessibleMut));
    assert!(!slab.is_readable(nowhere));
    assert!(!slab.is_writable(nowhere));
    slab.release_mut(RawMut { index: 3 });
    slab.release_ref(RawRef { index: 3 });
    slab.give_back(RawMut { index: 3 }, 1);
    assert_eq!(slab.guarded_ref(&RawMut { index: 3 }), None);
    assert_eq!(slab.guarded_mut(&RawMut { index: 3 }), None);
    assert_eq!(slab.len(), 0);
}

#[test]
fn take_moves_the_value_out_for_good() {
    let mut slab: Slab<String> = Slab::new();
    let a = slab.insert("a".to_owned());
    assert_eq!(slab.take(a), Ok("a".to_owned()));
    assert_eq!(slab.take(a), Err(AccessError::NotAccessibleTake));
    assert_eq!(slab.get_ref(a), Err(AccessError::NotAccessibleRef));
    assert_eq!(slab.get_mut(a).err(), Some(AccessError::NotAccessibleMut));
    assert_eq!(slab.acquire_mut(a), Err(AccessError::NotAccessibleMut));
    assert_eq!(slab.len(), 1);
}

#[test]
fn shared_access_allows_readers_only() {
    let mut slab: Slab<i32> = Slab::new();
    let a = slab.insert(1);
    let first = slab.acquire_ref(a).unwrap();
    let second = slab.acquire_ref(a).unwrap();
    assert_eq!(first, RawRef { index: 0 });
    assert_eq!(slab.get_ref(a), Ok(&1));
    assert!(slab.is_readable(a));
    assert!(!slab.is_writable(a));
    assert_eq!(slab.get_mut(a).err(), Some(AccessError::NotAccessibleMut));
    assert_eq!(slab.take(a), Err(AccessError::NotAccessibleTake));
    assert_eq!(slab.acquire_mut(a), Err(AccessError::NotAccessibleMut));
    slab.release_ref(first);
    assert!(!slab.is_writable(a));
    slab.release_ref(second);
    assert!(slab.is_writable(a));
    slab.release_ref(RawRef { index: 0 });
    assert!(slab.is_writable(a));
    assert_eq!(slab.take(a), Ok(1));
}

#[test]
fn exclusive_access_shuts_everyone_else_out() {
    let mut slab: Slab<i32> = Slab::new();
    let a = slab.insert(1);
    let b = slab.insert(2);
    let guard = slab.acquire_mut(a).unwrap();
    assert_eq!(guard, RawMut { index: 0 });
    assert_eq!(slab.get_ref(a), Err(AccessError::NotAccessibleRef));
    assert_eq!(slab.get_mut(a).err(), Some(AccessError::NotAccessibleMut));
    assert_eq!(slab.take(a), Err(AccessError::NotAccessibleTake));
    assert_eq!(slab.acquire_ref(a), Err(AccessError::NotAccessibleRef));
    assert_eq!(slab.acquire_mut(a), Err(AccessError::NotAccessibleMut));
    assert_eq!(slab.get_ref(b), Ok(&2));
    assert_eq!(slab.guarded_ref(&guard), Some(&1));
    *slab.guarded_mut(&guard).unwrap() = 7;
    slab.release_mut(guard);
    assert_eq!(slab.get_ref(a), Ok(&7));
    assert!(slab.is_writable(a));
}

#[test]
fn a_lent_value_comes_back() {
    let mut slab: Slab<String> = Slab::new();
    let a = slab.insert("a".to_owned());
    let (mut value, guard) = slab.lend(a).unwrap();
    assert_eq!(value, "a");
    assert_eq!(slab.get_ref(a), Err(AccessError::NotAccessibleRef));
    assert_eq!(slab.lend(a).err(), Some(AccessError::NotAccessibleMut));
    assert_eq!(slab.guarded_ref(&guard), None);
    value.push('b');
    slab.give_back(guard, value);
    assert_eq!(slab.get_ref(a).map(|s| s.as_str()), Ok("ab"));
    assert!(slab.is_writable(a));
}

#[test]
fn clear_forgets_every_cell() {
    let mut heap = Heap::new();
    let a = heap.strings.insert("a".to_owned());
    let b = heap.vecs.insert(vec![]);
    heap.clear();
    assert_eq!(heap.strings.get_ref(a), Err(AccessError::NotAccessibleRef));
    assert_eq!(heap.vecs.get_ref(b), Err(AccessError::NotAccessibleRef));
    assert_eq!(heap.strings.insert("c".to_owned()), Shared { index: 0 });
}
