use std::collections::{BTreeSet as StdBTreeSet, HashSet as StdHashSet, VecDeque};

use gcollections::ops::{
    Back, Cardinality, Contains, Difference, Empty, Extract, Front, Insert, Intersection, IsEmpty,
    Pop, Push, SymmetricDifference, Union,
};
use gcollections::{
    BTreeSet, BitSetWrapper, DequeBackFrontQueue, DequeFrontStack, HashSet, Queue, Stack, Vector,
    VectorDeque, VectorStack,
};

fn bits(items: &[usize]) -> BitSetWrapper {
    let mut b = bit_set::BitSet::new();
    for i in items {
        b.insert(*i);
    }
    BitSetWrapper::wrap(b)
}

fn items(b: &BitSetWrapper) -> Vec<usize> {
    b.iter().collect()
}

#[test]
fn bit_set_operations() {
    let x = bits(&[1, 2, 40]);
    let y = bits(&[2, 3, 40, 100]);
    assert_eq!(items(&x.intersection(&y)), vec![2, 40]);
    assert_eq!(items(&x.union(&y)), vec![1, 2, 3, 40, 100]);
    assert_eq!(items(&x.difference(&y)), vec![1]);
    assert_eq!(items(&x.symmetric_difference(&y)), vec![1, 3, 100]);
    assert!(x.contains(&40));
    assert!(!x.contains(&3));
    assert!(!x.contains(&1000));
}

#[test]
fn vector_push_pop() {
    let mut v: Vector<i32> = Empty::empty();
    assert_eq!(v.size(), 0);
    Push::<Back>::push(&mut v, 1);
    Push::<Back>::push(&mut v, 2);
    assert_eq!(v.size(), 2);
    assert_eq!(Pop::<Back>::pop(&mut v), Some(2));
    assert_eq!(Pop::<Back>::pop(&mut v), Some(1));
    assert_eq!(Pop::<Back>::pop(&mut v), None);
    let w = Vector::wrap(vec![4, 5]);
    assert_eq!(*w, vec![4, 5]);
}

#[test]
fn vector_stack_is_last_in_first_out() {
    let mut s: VectorStack<i32> = Stack::wrap(Vector::wrap(vec![]));
    assert!(s.is_empty());
    s.insert(1);
    s.insert(2);
    s.insert(3);
    assert_eq!(s.size(), 3);
    assert_eq!(s.extract(), Some(3));
    assert_eq!(s.extract(), Some(2));
    assert_eq!(s.extract(), Some(1));
    assert_eq!(s.extract(), None);
}

#[test]
fn deque_ends() {
    let mut d = VectorDeque::wrap(VecDeque::new());
    Push::<Front>::push(&mut d, 2);
    Push::<Front>::push(&mut d, 1);
    Push::<Back>::push(&mut d, 3);
    assert_eq!(d.size(), 3);
    assert_eq!(Pop::<Front>::pop(&mut d), Some(1));
    assert_eq!(Pop::<Back>::pop(&mut d), Some(3));
    assert_eq!(d.pop_front(), Some(2));
    assert_eq!(d.pop_back(), None);
}

#[test]
fn deque_queue_is_first_in_first_out() {
    let mut q: DequeBackFrontQueue<i32> = Queue::wrap(VectorDeque::wrap(VecDeque::new()));
    q.insert(1);
    q.insert(2);
    assert_eq!(q.extract(), Some(1));
    assert_eq!(q.extract(), Some(2));
    assert_eq!(q.extract(), None);
    let mut s: DequeFrontStack<i32> = Empty::empty();
    s.insert(1);
    s.insert(2);
    assert_eq!(s.extract(), Some(2));
}

#[test]
fn std_sets() {
    let hs: HashSet<i32> = HashSet::wrap([1, 2, 3].into_iter().collect::<StdHashSet<i32>>());
    assert!(hs.contains(&2));
    assert!(!hs.contains(&5));
    let ts = BTreeSet::wrap([3, 1].into_iter().collect::<StdBTreeSet<i32>>());
    assert_eq!(ts.iter().copied().collect::<Vec<_>>(), vec![1, 3]);
}
