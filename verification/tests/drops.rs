use std::cell::RefCell;

use rc_vec::store::Store;
use rc_vec::vecs::RcVec;

/// An element that records its own destruction in a shared queue.
#[derive(Clone, Debug)]
struct A<'a, T: Clone>(T, &'a RefCell<Vec<T>>);

impl<'a, T: Clone> Drop for A<'a, T> {
    fn drop(&mut self) {
        self.1.borrow_mut().push(self.0.clone());
    }
}

#[test]
fn single_vec_dropped() {
    let q = RefCell::new(Vec::new());
    let mut st = Store::new();
    let v = RcVec::from_vec(&mut st, vec![A(1, &q), A(2, &q), A(3, &q)]);
    v.release(&mut st);
    assert_eq!(&*q.borrow(), &[1, 2, 3]);
}

#[test]
fn clone_dropped_once() {
    let q = RefCell::new(Vec::new());
    let mut st = Store::new();
    let v1 = RcVec::from_vec(&mut st, vec![A(1, &q), A(2, &q), A(3, &q)]);
    let v2 = v1.clone_handle(&mut st);
    v1.release(&mut st);
    assert_eq!(&*q.borrow(), &[]);
    v2.release(&mut st);
    assert_eq!(&*q.borrow(), &[1, 2, 3]);
}

#[test]
fn clone_dropped_once_with_weak() {
    let q = RefCell::new(Vec::new());
    let mut st = Store::new();
    let v1 = RcVec::from_vec(&mut st, vec![A(1, &q), A(2, &q), A(3, &q)]);
    let v2 = v1.clone_handle(&mut st);
    v1.release(&mut st);
    assert_eq!(&*q.borrow(), &[]);
    let w = v2.downgrade(&mut st);
    v2.release(&mut st);
    assert_eq!(&*q.borrow(), &[1, 2, 3]);
    w.release(&mut st);
    assert_eq!(&*q.borrow(), &[1, 2, 3]);
}

#[test]
fn weak_outlives_clone_then_strong() {
    let q = RefCell::new(Vec::new());
    let mut st = Store::new();
    let v1 = RcVec::from_vec(&mut st, vec![A(1, &q), A(2, &q), A(3, &q)]);
    let v2 = v1.clone_handle(&mut st);
    let w = v2.downgrade(&mut st);
    v2.release(&mut st);
    assert_eq!(&*q.borrow(), &[]);
    v1.release(&mut st);
    assert_eq!(&*q.borrow(), &[1, 2, 3]);
    w.release(&mut st);
    assert_eq!(&*q.borrow(), &[1, 2, 3]);
}
