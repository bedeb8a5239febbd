use idiom_patterns::data_structures::value_vector::ValueVec;
use std::cell::Cell;

#[test]
fn push_pop() {
    let mut v = ValueVec::new();
    assert!(v.is_empty());
    v.push(1);
    v.push(2);
    v.push(3);
    assert_eq!(v.len(), 3);
    assert_eq!(v.pop(), Some(3));
    assert_eq!(v.pop(), Some(2));
    assert_eq!(v.pop(), Some(1));
    assert_eq!(v.pop(), None);
}

#[test]
fn get_cloned_and_replace() {
    let mut v = ValueVec::new();
    v.extend(vec![10, 20, 30]);
    assert_eq!(v.get_cloned(1), Some(20));
    assert_eq!(v.replace(1, 99), Some(20));
    assert_eq!(v.get_cloned(1), Some(99));
    assert_eq!(v.replace(10, 123), None);
}

#[test]
fn insert_and_remove() {
    let mut v = ValueVec::new();
    v.extend(vec![1, 2, 3]);
    v.insert(1, 9);
    assert_eq!(v.len(), 4);
    assert_eq!(v.remove(2), 2);
    assert_eq!(v.get_cloned(0), Some(1));
    assert_eq!(v.at(1), 9);
    assert_eq!(v.at(2), 3);
    assert_eq!(v.remove(1), 9);
}

#[test]
fn swap_remove_works() {
    let mut v = ValueVec::new();
    v.extend(vec![10, 20, 30, 40]);
    let got = v.swap_remove(1);
    assert_eq!(got, 20);
    assert_eq!(v.len(), 3);
    let snapshot = v.to_vec();
    assert!(snapshot.contains(&10));
    assert!(snapshot.contains(&30));
    assert!(snapshot.contains(&40));
    assert!(!snapshot.contains(&20));

    let v: Vec<i32> = v.into();
    assert_eq!(snapshot, v);
}

#[test]
fn to_vec_clone_snapshot() {
    let mut v = ValueVec::new();
    v.extend(vec!["a".to_string(), "b".to_string()]);
    let snap = v.to_vec();
    assert_eq!(snap, vec!["a".to_string(), "b".to_string()]);
    v.push("c".to_string());
    assert_eq!(v.len(), 3);
    assert_eq!(snap.len(), 2);
}

#[test]
fn debug_impl() {
    let v = ValueVec::from(vec![1, 2, 3]);
    let s = v.debug_text();
    println!("{}", s);
    assert!(!s.contains("ValueVec"));
    assert!(s.contains("[1, 2, 3]"));
}

#[test]
fn from_vec_wraps_without_copy() {
    let v = vec![1, 2, 3];
    let vv = ValueVec::from(v);
    assert_eq!(vv.len(), 3);
    assert_eq!(vv.at(0), 1);
    assert_eq!(vv.at(1), 2);
    assert_eq!(vv.at(2), 3);
}

#[test]
fn into_vec_unwraps_without_copy() {
    let vv = ValueVec::from(vec!["a".to_string(), "b".to_string()]);
    let v: Vec<_> = vv.into();
    assert_eq!(v, vec!["a", "b"]);
}

#[test]
fn round_trip_from_vec_into_vec() {
    let source = vec![10, 20, 30];
    let vv = ValueVec::from(source);
    let roundtrip: Vec<_> = vv.into();
    assert_eq!(roundtrip, vec![10, 20, 30]);
}

#[test]
fn into_iterator_consumes_valuevec() {
    let vv = ValueVec::from(vec![1, 2, 3]);
    let collected: Vec<_> = vv.into_iter().collect();
    assert_eq!(collected, vec![1, 2, 3]);
}

#[test]
fn into_iterator_and_into_vec_equivalence() {
    let vv1 = ValueVec::from(vec![5, 6, 7]);
    let vv2 = ValueVec::from(vec![5, 6, 7]);
    let collected_from_iter: Vec<_> = vv1.into_iter().collect();
    let collected_from_into: Vec<_> = vv2.into();
    assert_eq!(collected_from_iter, collected_from_into);
}

#[derive(Debug, PartialEq, Eq)]
struct DropCounter<'a> {
    val: i32,
    drops: &'a Cell<usize>,
}

impl<'a> Drop for DropCounter<'a> {
    fn drop(&mut self) {
        self.drops.set(self.drops.get() + 1);
    }
}

#[test]
fn into_iterator_works_with_non_copy_types() {
    let drops = Cell::new(0);
    {
        let vv = ValueVec::from(vec![
            DropCounter { val: 1, drops: &drops },
            DropCounter { val: 2, drops: &drops },
        ]);
        let vals: Vec<_> = vv.into_iter().map(|c| c.val).collect();
        assert_eq!(vals, vec![1, 2]);
    }
    assert_eq!(drops.get(), 2);
}

#[test]
fn swap_value_exchanges_in_place() {
    let mut v = ValueVec::from(vec![1, 2, 3]);
    let mut x = 7;
    v.swap_value(1, &mut x);
    assert_eq!(x, 2);
    assert_eq!(v.into_vec(), vec![1, 7, 3]);
}

#[test]
fn contains_clear_and_capacity() {
    let mut v = ValueVec::with_capacity(8);
    assert!(v.capacity() >= 8);
    v.extend(vec![4, 5]);
    assert!(v.contains(&5));
    assert!(!v.contains(&6));
    v.reserve(10);
    v.shrink_to_fit();
    assert_eq!(v.to_vec(), vec![4, 5]);
    assert!(v.capacity() >= 2);
    v.clear();
    assert!(v.is_empty());
    assert!(!v.contains(&5));
}

#[test]
fn empty_vector_edges() {
    let mut v: ValueVec<u8> = ValueVec::default();
    assert_eq!(v.pop(), None);
    assert_eq!(v.get_cloned(0), None);
    assert_eq!(v.replace(0, 1), None);
    v.insert(0, 5);
    assert_eq!(v.swap_remove(0), 5);
    assert!(v.is_empty());
}
