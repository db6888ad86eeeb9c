use rc_vec::string::RcString;

#[test]
fn create_from_macro() {
    let s = RcString::from_str("hello, world!");
    assert_eq!(s.to_string(), "hello, world!");
}

#[test]
fn create_from_macro_with_args() {
    let s = RcString::from_str(&format!("foo: {}, bar: {}", 1, "baz"));
    assert_eq!(s.to_string(), "foo: 1, bar: baz");
}

#[test]
fn from_str() {
    let s = RcString::from_str("hello, world?");
    assert_eq!(s.to_string(), "hello, world?");
}
