use rc_vec::store::Store;
use rc_vec::vecs::RcVec;

#[test]
fn downgrade_upgrade() {
    let mut st = Store::new();
    let v1 = RcVec::copy_from_slice(&mut st, &[1, 2, 3, 4]);
    let w = v1.downgrade(&mut st);
    let v2 = w.upgrade(&mut st).unwrap();
    assert_eq!(v1.to_vec(&st), vec![1, 2, 3, 4]);
    assert_eq!(v2.to_vec(&st), vec![1, 2, 3, 4]);
}

#[test]
fn upgrade_should_fail() {
    let mut st = Store::new();
    let v = RcVec::copy_from_slice(&mut st, &[1, 2, 3, 4]);
    let w = v.downgrade(&mut st);
    v.release(&mut st);
    assert!(w.upgrade(&mut st).is_none());
}

#[test]
fn upgrade_after_clone() {
    let mut st = Store::new();
    let v1 = RcVec::copy_from_slice(&mut st, &[1, 2, 3, 4]);
    let w = v1.downgrade(&mut st);
    let v2 = v1.clone_handle(&mut st);
    v1.release(&mut st);
    let v3 = w.upgrade(&mut st).unwrap();
    assert_eq!(v2.to_vec(&st), vec![1, 2, 3, 4]);
    assert_eq!(v3.to_vec(&st), vec![1, 2, 3, 4]);
}

#[test]
fn upgrade_after_clone_dropped() {
    let mut st = Store::new();
    let v1 = RcVec::copy_from_slice(&mut st, &[1, 2, 3, 4]);
    let w = v1.downgrade(&mut st);
    let v2 = v1.clone_handle(&mut st);
    v2.release(&mut st);
    let v3 = w.upgrade(&mut st).unwrap();
    assert_eq!(v1.to_vec(&st), vec![1, 2, 3, 4]);
    assert_eq!(v3.to_vec(&st), vec![1, 2, 3, 4]);
}

#[test]
fn upgrade_after_orig_and_clone_dropped_should_fail() {
    let mut st = Store::new();
    let v1 = RcVec::copy_from_slice(&mut st, &[1, 2, 3, 4]);
    let w = v1.downgrade(&mut st);
    let v2 = v1.clone_handle(&mut st);
    v1.release(&mut st);
    v2.release(&mut st);
    assert!(w.upgrade(&mut st).is_none());
}
