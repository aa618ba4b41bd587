//! Ownership discipline observed at run time: element constructors and
//! destructors balance, cursors stop asking an exhausted source, and the
//! string buffer distinguishes reading from draining.

use rizin_rs::util::RzStrBuf;
use rizin_rs::{RzIterator, StrBuf, Vector};
use std::cell::Cell;
use std::rc::Rc;

struct Counted {
    live: Rc<Cell<i32>>,
}

impl Counted {
    fn new(counter: &Rc<Cell<i32>>) -> Counted {
        counter.set(counter.get() + 1);
        Counted { live: Rc::clone(counter) }
    }
}

impl Drop for Counted {
    fn drop(&mut self) {
        self.live.set(self.live.get() - 1);
    }
}

#[test]
fn vector_constructors_match_destructors() {
    let live = Rc::new(Cell::new(0));
    {
        let mut arr: Vector<Counted> = Vector::new(0);
        for _ in 0..6 {
            arr.push(Counted::new(&live));
        }
        assert_eq!(live.get(), 6);
        let popped = arr.pop().unwrap();
        drop(popped);
        assert_eq!(live.get(), 5);
        drop(arr.remove(0));
        assert_eq!(live.get(), 4);
        let bounced = arr.insert(100, Counted::new(&live));
        assert!(bounced.is_some());
        drop(bounced);
        assert_eq!(live.get(), 4);
        assert!(arr.insert(2, Counted::new(&live)).is_none());
        assert_eq!(live.get(), 5);
    }
    assert_eq!(live.get(), 0);
}

#[test]
fn cursor_yields_then_stays_exhausted() {
    let mut it: RzIterator<i32> = RzIterator::from_raw((0..10).collect(), true, true);
    let mut act: Vec<i32> = Vec::new();
    while let Some(x) = it.next() {
        act.push(*x);
    }
    assert_eq!(act, (0..10).collect::<Vec<i32>>());
    assert_eq!(it.next(), None);
    assert_eq!(it.next(), None);
    assert_eq!(it.free(), (true, true));
}

#[test]
fn test_iter() {
    let mut iter: RzIterator<i32> = RzIterator::from_raw((0..10).collect(), true, true);
    let mut act: Vec<i32> = Vec::new();
    while let Some(x) = iter.next() {
        act.push(*x);
    }
    assert_eq!(act, (0..10).into_iter().collect::<Vec<i32>>());
}

#[test]
fn cursor_optional_finalizers() {
    let it: RzIterator<u8> = RzIterator::from_raw(vec![1, 2], false, true);
    assert_eq!(it.free(), (false, true));
    let none: RzIterator<u8> = RzIterator::from_raw(vec![], false, false);
    assert_eq!(none.free(), (false, false));
}

#[test]
fn cursor_into_raw_keeps_remainder() {
    let mut it: RzIterator<i32> = RzIterator::from_raw((0..10).collect(), true, true);
    assert_eq!(it.next(), Some(&0));
    assert_eq!(it.next(), Some(&1));
    assert_eq!(it.next(), Some(&2));
    let rest = it.into_raw();
    assert_eq!(rest, (3..10).collect::<Vec<i32>>());
}

#[test]
fn strbuf_read_is_repeatable_drain_is_not() {
    let mut sb = StrBuf::new();
    assert_eq!(sb.to_string(), "");
    sb.append("ab");
    sb.append("cd");
    assert_eq!(sb.to_string(), "abcd");
    assert_eq!(sb.to_string(), "abcd");
    let taken = sb.drain();
    assert_eq!(taken, "abcd");
    assert_eq!(sb.to_string(), "");
}

#[test]
fn util_strbuf_same_buffer() {
    let mut sb = RzStrBuf::new();
    sb.append("engine");
    assert_eq!(sb.to_string(), "engine");
}
