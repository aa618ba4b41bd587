//! Container round trips: growable arrays, reference arrays and linked
//! sequences keep their elements in order, forward and backward.

use rizin_rs::util::{RzList, RzPVector, RzVector};
use rizin_rs::{List, PVector, Vector};

#[test]
fn lib_test_vector() {
    let vec = Vector::try_from(vec![0, 1, 2, 3, 4, 5, 6, 7, 8, 9]).unwrap();
    assert_eq!(
        vec.as_slice().iter().map(|x| *x).collect::<Vec<i32>>(),
        (0..10).into_iter().collect::<Vec<i32>>()
    );
}

#[test]
fn util_test_vector() {
    let vec = RzVector::try_from(vec![0, 1, 2, 3, 4, 5, 6, 7, 8, 9]).unwrap();
    assert_eq!(
        vec.as_slice().iter().map(|x| *x).collect::<Vec<i32>>(),
        (0..10).into_iter().collect::<Vec<i32>>()
    );
}

#[test]
fn lib_test_pvector() {
    let mut vec: PVector<i32> = PVector::new(0);
    for i in 0..10 {
        vec.push(i);
    }
    assert_eq!(
        vec.as_slice().iter().map(|x| *x as i32).collect::<Vec<i32>>(),
        (0..10).into_iter().collect::<Vec<i32>>()
    );
}

#[test]
fn util_test_pvector() {
    let mut vec: RzPVector<i32> = RzPVector::new(0);
    for i in 0..10 {
        vec.push(i);
    }
    assert_eq!(
        vec.as_slice().iter().map(|x| *x as i32).collect::<Vec<i32>>(),
        (0..10).into_iter().collect::<Vec<i32>>()
    );
}

#[test]
fn lib_test_list() {
    let mut list = List::new();
    for i in 0..10 {
        list.push(i);
    }
    let mut act: Vec<i32> = Vec::new();
    let mut it = list.iter();
    while let Some(x) = it.next() {
        act.push(*x);
    }
    assert_eq!(act, (0..10).into_iter().collect::<Vec<i32>>());
}

#[test]
fn util_test_list() {
    let mut list: RzList<i32> = RzList::new();
    for i in 0..10 {
        list.push(i);
    }
    let mut act: Vec<i32> = Vec::new();
    let mut it = list.iter();
    while let Some(x) = it.next() {
        act.push(*x);
    }
    assert_eq!(act, (0..10).into_iter().collect::<Vec<i32>>());
    let mut rev: Vec<i32> = Vec::new();
    let mut back = list.iter();
    while let Some(x) = back.next_back() {
        rev.push(*x);
    }
    assert_eq!(rev, (0..10).rev().into_iter().collect::<Vec<i32>>());
}

#[test]
fn vector_scenario_push_slice_pop() {
    let mut arr: Vector<i32> = Vector::new(4);
    for i in 0..10 {
        arr.push(i);
    }
    assert_eq!(arr.as_slice(), &[0, 1, 2, 3, 4, 5, 6, 7, 8, 9]);
    assert_eq!(arr.pop(), Some(9));
    assert_eq!(arr.len(), 9);
}

#[test]
fn vector_pop_round_trip() {
    let input = vec![3, 1, 4, 1, 5, 9];
    let mut arr: Vector<i32> = Vector::new(0);
    for x in &input {
        arr.push(*x);
    }
    let mut drained: Vec<i32> = Vec::new();
    for _ in 0..input.len() {
        drained.push(arr.pop().unwrap());
    }
    let reversed: Vec<i32> = input.iter().rev().map(|x| *x).collect();
    assert_eq!(drained, reversed);
    assert_eq!(arr.pop(), None);
}

#[test]
fn vector_insert_remove_bounds() {
    let mut arr: Vector<i32> = Vector::new(0);
    assert_eq!(arr.pop(), None);
    assert_eq!(arr.remove(0), None);
    assert_eq!(arr.insert(0, 7), None);
    assert_eq!(arr.insert(1, 8), None);
    assert_eq!(arr.insert(5, 9), Some(9));
    assert_eq!(arr.as_slice(), &[7, 8]);
    assert_eq!(arr.insert(1, 10), None);
    assert_eq!(arr.as_slice(), &[7, 10, 8]);
    assert_eq!(arr.remove(1), Some(10));
    assert_eq!(arr.remove(2), None);
    assert_eq!(arr.as_slice(), &[7, 8]);
}

#[test]
fn list_scenario_forward_backward() {
    let mut list: List<i32> = List::new();
    for i in 0..10 {
        list.push(i);
    }
    let mut fwd: Vec<i32> = Vec::new();
    let mut it = list.iter();
    while let Some(x) = it.next() {
        fwd.push(*x);
    }
    assert_eq!(fwd, (0..10).collect::<Vec<i32>>());
    let mut bwd: Vec<i32> = Vec::new();
    let mut back = list.iter();
    while let Some(x) = back.next_back() {
        bwd.push(*x);
    }
    assert_eq!(bwd, (0..10).rev().collect::<Vec<i32>>());
}

#[test]
fn list_pop_round_trip() {
    let mut list: List<i32> = List::new();
    for i in 0..5 {
        list.push(i);
    }
    assert_eq!(list.len(), 5);
    let mut drained: Vec<i32> = Vec::new();
    while let Some(b) = list.pop() {
        drained.push(*b);
    }
    assert_eq!(drained, vec![4, 3, 2, 1, 0]);
    assert_eq!(list.len(), 0);
    assert!(list.pop().is_none());
}

#[test]
fn list_iteration_restarts_fresh() {
    let mut list: List<i32> = List::new();
    list.push(1);
    list.push(2);
    let mut first = list.iter();
    assert_eq!(first.next(), Some(&1));
    let mut second = list.iter();
    assert_eq!(second.size_hint(), (2, Some(2)));
    assert_eq!(second.next(), Some(&1));
    assert_eq!(second.next(), Some(&2));
    assert_eq!(second.next(), None);
    assert_eq!(second.next(), None);
}
