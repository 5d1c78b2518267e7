use std::cell::Cell;
use std::collections::HashSet;
use std::rc::Rc;

use stackvec::{ArrayIntoIter, StackVec, TryCollect};

const NUMBERS: [u8; 9] = [5, 8, 9, 10, 6, 7, 4, 6, 7];

/// A value that counts, in a shared cell, how many of its kind are alive.
#[derive(Debug)]
struct Instance {
    alive: Rc<Cell<isize>>,
}

impl Instance {
    fn new(alive: &Rc<Cell<isize>>) -> Self {
        alive.set(alive.get() + 1);
        Instance { alive: alive.clone() }
    }
}

impl Drop for Instance {
    fn drop(&mut self) {
        self.alive.set(self.alive.get() - 1);
    }
}

fn assert_balanced(alive: &Rc<Cell<isize>>) {
    let count = alive.get();
    assert!(count >= 0, "instance count {} < 0: double drop", count);
    assert!(count <= 0, "instance count {} > 0: leak", count);
}

#[test]
fn build() {
    let array = StackVec::<[u8; 10]>::from_iter(NUMBERS.iter().cloned());
    println!("{:?}", array);
}

#[test]
fn build_with_drop_full() {
    let alive = Rc::new(Cell::new(0));
    {
        let array = StackVec::<[Instance; 3]>::from_iter(std::iter::repeat_with(|| Instance::new(&alive)));
        println!("{:?}", array);
    }
    assert_balanced(&alive);
}

#[test]
fn build_with_drop_partial() {
    let alive = Rc::new(Cell::new(0));
    {
        let mut array = StackVec::<[Instance; 3]>::default();
        array.try_push(Instance::new(&alive)).unwrap();
        println!("{:?}", array);
    }
    assert_balanced(&alive);
}

#[test]
fn extend() {
    let mut array = StackVec::<[u8; 0x40]>::default();
    array.extend(&mut Iterator::chain((0..56).map(|_| 0), b"Stackvec".iter().cloned()));
    println!("{:?}", array);
}

#[test]
fn iter() {
    let array = StackVec::<[u8; 10]>::from_iter(NUMBERS.iter().cloned());
    for (value, expected_value) in Iterator::zip(array.iter(), &NUMBERS) {
        assert_eq!(value, expected_value);
    }
}

#[test]
fn iter_mut() {
    let mut array = StackVec::from([0_u8; 10]);
    for (array_i, &value) in Iterator::zip(array.iter_mut(), &NUMBERS) {
        *array_i = value;
    }
    for (value, expected_value) in Iterator::zip(array.iter(), &NUMBERS) {
        assert_eq!(value, expected_value);
    }
}

#[test]
fn into_iter() {
    let array = StackVec::<[u8; 10]>::from_iter(NUMBERS.iter().cloned());
    let mut iterator = array.into_iter();
    let mut values = Vec::new();
    while let Some(value) = iterator.next() {
        values.push(value);
    }
    assert_eq!(values, Vec::from_iter(NUMBERS.iter().cloned()));
}

#[test]
fn basic_array_into_iter() {
    let mut iterator = ArrayIntoIter::into_iter(NUMBERS);
    let mut values = Vec::new();
    while let Some(value) = iterator.next() {
        values.push(value);
    }
    assert_eq!(values, Vec::from_iter(NUMBERS.iter().cloned()));
}

#[test]
fn into_iter_with_drop_full() {
    let alive = Rc::new(Cell::new(0));
    {
        let array = StackVec::<[_; 3]>::from_iter(std::iter::repeat_with(|| Instance::new(&alive)));
        println!("{:?}", array);
        let mut iterator = array.into_iter();
        while let Some(_) = iterator.next() {}
    }
    assert_balanced(&alive);
}

#[test]
fn into_iter_with_drop_partial_left() {
    let alive = Rc::new(Cell::new(0));
    {
        let array = StackVec::<[_; 3]>::from_iter(std::iter::repeat_with(|| Instance::new(&alive)));
        println!("{:?}", array);
        let mut iterator = array.into_iter();
        let _ = iterator.next();
    }
    assert_balanced(&alive);
}

#[test]
fn into_iter_with_drop_partial_right() {
    let alive = Rc::new(Cell::new(0));
    {
        let array = StackVec::<[_; 3]>::from_iter(std::iter::repeat_with(|| Instance::new(&alive)));
        println!("{:?}", array);
        let mut iterator = array.into_iter();
        let _ = iterator.next_back();
    }
    assert_balanced(&alive);
}

#[test]
fn array_into_iter_array_into_iter() {
    #[derive(PartialEq, Eq, Hash)]
    struct NoClone;

    let array = [NoClone, NoClone, NoClone, NoClone];
    let mut iterator = ArrayIntoIter::into_iter(array);
    let mut set = HashSet::<NoClone>::new();
    while let Some(value) = iterator.next() {
        set.insert(value);
    }
    assert!(!set.is_empty());
}

#[test]
fn it_works_with_enough_elements() {
    let array: [_; 15] = (0..15).try_collect().expect("Missing elements to collect");
    assert_eq!(array, [0, 1, 2, 3, 4, 5, 6, 7, 8, 9, 10, 11, 12, 13, 14],)
}

#[test]
#[should_panic]
fn it_fails_with_missing_elements() {
    let _: [_; 15] = (0..10).try_collect().expect("Missing elements to collect");
}
