use rc_vec::store::Store;
use rc_vec::vecs::RcVec;

#[test]
fn create_from_macro_list() {
    let mut st = Store::new();
    let v = RcVec::copy_from_slice(&mut st, &[1, 2, 3, 4, 5]);
    assert_eq!(v.to_vec(&st), vec![1, 2, 3, 4, 5]);
}

#[test]
fn create_from_macro_count() {
    let mut st = Store::new();
    let v = RcVec::copy_from_slice(&mut st, &[7; 10]);
    assert_eq!(v.to_vec(&st), vec![7, 7, 7, 7, 7, 7, 7, 7, 7, 7]);
}

#[test]
fn create_new() {
    let mut st = Store::new();
    let v: RcVec<i32> = RcVec::new(&mut st);
    assert_eq!(v.to_vec(&st), Vec::<i32>::new());
}
