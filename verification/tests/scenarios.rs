use rc_vec::counter::AcyclicCounter;
use rc_vec::counter::Counter;
use rc_vec::counter::StrongWeakCounter;
use rc_vec::store::Store;
use rc_vec::string::RcString;
use rc_vec::vecs::AcycVec;
use rc_vec::vecs::RcVec;

#[test]
fn push_with_live_clone_is_isolated() {
    let mut st = Store::new();
    let mut v1 = RcVec::copy_from_slice(&mut st, &[1, 2, 3]);
    let v2 = v1.clone_handle(&mut st);
    v1.push(&mut st, 4);
    assert_eq!(v1.to_vec(&st), vec![1, 2, 3, 4]);
    assert_eq!(v2.to_vec(&st), vec![1, 2, 3]);
}

#[test]
fn mutations_match_expected_values() {
    let mut st = Store::new();
    let mut v = RcVec::copy_from_slice(&mut st, &[10, 20, 30]);
    v.insert(&mut st, 1, 15);
    assert_eq!(v.to_vec(&st), vec![10, 15, 20, 30]);
    assert_eq!(v.remove(&mut st, 2), Some(20));
    assert_eq!(v.remove(&mut st, 9), None);
    assert_eq!(v.to_vec(&st), vec![10, 15, 30]);
    assert_eq!(v.pop(&mut st), Some(30));
    v.extend_from_slice(&mut st, &[7, 8]);
    assert_eq!(v.to_vec(&st), vec![10, 15, 7, 8]);
    assert_eq!(v.len(&st), 4);
    assert_eq!(*v.get(&st, 2), 7);
    v.clear(&mut st);
    assert_eq!(v.pop(&mut st), None);
    assert_eq!(v.to_vec(&st), Vec::<i32>::new());
}

#[test]
fn deep_clone_is_independent() {
    let mut st = Store::new();
    let v1 = RcVec::copy_from_slice(&mut st, &[1, 2]);
    let mut v2 = v1.try_deep_clone(&mut st).unwrap();
    v2.push(&mut st, 3);
    assert_eq!(v1.to_vec(&st), vec![1, 2]);
    assert_eq!(v2.to_vec(&st), vec![1, 2, 3]);
}

#[test]
fn into_vec_requires_sole_ownership() {
    let mut st = Store::new();
    let v1 = RcVec::copy_from_slice(&mut st, &[1, 2, 3]);
    let v2 = v1.clone_handle(&mut st);
    let v1 = match v1.try_into_vec(&mut st) {
        Ok(_) => panic!("a shared handle must not be unwrapped"),
        Err(v1) => v1,
    };
    v2.release(&mut st);
    let owned = match v1.try_into_vec(&mut st) {
        Ok(owned) => owned,
        Err(_) => panic!("the sole strong handle can always be unwrapped"),
    };
    assert_eq!(owned, vec![1, 2, 3]);
}

#[test]
fn acyclic_vector_push_and_copy() {
    let mut st = Store::new();
    let mut v = AcycVec::copy_from_slice(&mut st, &[1u8, 2]);
    v.push(&mut st, 3);
    assert_eq!(v.to_vec(&st), vec![1u8, 2, 3]);
}

#[test]
fn weak_clone_tracks_liveness() {
    let mut st = Store::new();
    let v = RcVec::copy_from_slice(&mut st, &[5]);
    let w1 = v.downgrade(&mut st);
    let w2 = w1.clone_handle(&mut st);
    let upgraded = w1.upgrade(&mut st);
    assert!(upgraded.is_some());
    upgraded.unwrap().release(&mut st);
    v.release(&mut st);
    assert!(w1.upgrade(&mut st).is_none());
    assert!(w2.upgrade(&mut st).is_none());
    w1.release(&mut st);
    w2.release(&mut st);
}

#[test]
fn strong_weak_counter_transitions() {
    let mut c = StrongWeakCounter::fresh();
    c.incr_strong();
    assert!(c.valid_strong());
    assert!(c.valid_weak());
    assert!(c.unique_strong());
    assert!(c.unique_weak());
    c.incr_weak();
    assert!(c.unique_strong());
    assert!(!c.unique_weak());
    c.decr_strong();
    assert!(!c.valid_strong());
    assert!(c.valid_weak());
    c.decr_weak();
    assert!(!c.valid_weak());
}

#[test]
fn acyclic_counter_transitions() {
    let mut c = AcyclicCounter::fresh();
    c.incr();
    assert!(c.valid());
    assert!(c.unique());
    c.incr();
    assert!(!c.unique());
    c.decr();
    c.decr();
    assert!(!c.valid());
}

#[test]
fn push_encodes_multibyte_chars() {
    let mut s = RcString::from_str("a");
    s.push('\u{e9}');
    s.push('\u{20ac}');
    s.push('\u{1d11e}');
    assert_eq!(s.to_string(), "a\u{e9}\u{20ac}\u{1d11e}");
    assert_eq!(s.byte_len(), 1 + 2 + 3 + 4);
}

#[test]
fn byte_len_counts_utf8_bytes() {
    assert_eq!(RcString::from_str("abc").byte_len(), 3);
    assert_eq!(RcString::from_str("").byte_len(), 0);
    assert_eq!(RcString::from_str("\u{e9}").byte_len(), 2);
}
