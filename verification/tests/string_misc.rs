use rc_vec::string::RcString;

#[test]
fn add_str() {
    let mut s = RcString::from_str("foo");
    s.push_str("bar");
    assert_eq!(s.to_string(), "foobar");
}

#[test]
fn add_self() {
    let mut s = RcString::from_str("foo");
    s.append(&RcString::from_str("bar"));
    assert_eq!(s.to_string(), "foobar");
}

#[test]
fn add_assign_str() {
    let mut s = RcString::from_str("foo");
    s.push_str("bar");
    assert_eq!(s.to_string(), "foobar");
}

#[test]
fn add_assign_self() {
    let mut s = RcString::from_str("foo");
    s.append(&RcString::from_str("bar"));
    assert_eq!(s.to_string(), "foobar");
}

#[test]
fn add_str_cloned() {
    let s1 = RcString::from_str("foo");
    let mut s2 = s1.duplicate();
    s2.push_str("bar");
    assert_eq!(s1.to_string(), "foo");
    assert_eq!(s2.to_string(), "foobar");
}

#[test]
fn add_assign_str_cloned() {
    let s1 = RcString::from_str("foo");
    let mut s2 = s1.duplicate();
    s2.push_str("bar");
    assert_eq!(s1.to_string(), "foo");
    assert_eq!(s2.to_string(), "foobar");
}

#[test]
fn add_assign_str_orig() {
    let mut s1 = RcString::from_str("foo");
    let s2 = s1.duplicate();
    s1.push_str("bar");
    assert_eq!(s1.to_string(), "foobar");
    assert_eq!(s2.to_string(), "foo");
}

#[test]
fn sort_strs() {
    let arr = vec![
        RcString::from_str("foo"),
        RcString::from_str("baz"),
        RcString::from_str("qux"),
        RcString::from_str("bar"),
        RcString::from_str(""),
        RcString::from_str("food"),
    ];
    let mut sorted: Vec<String> = arr.iter().map(|s| s.to_string()).collect();
    sorted.sort();
    let expected = vec![
        RcString::from_str(""),
        RcString::from_str("bar"),
        RcString::from_str("baz"),
        RcString::from_str("foo"),
        RcString::from_str("food"),
        RcString::from_str("qux"),
    ];
    let expected_strs: Vec<String> = expected.iter().map(|s| s.to_string()).collect();
    assert_eq!(sorted, expected_strs);
}

#[test]
fn debug() {
    let s = RcString::from_str("foo\nbar");
    assert_eq!(format!("{:?}", s.to_string()), "\"foo\\nbar\"")
}

#[test]
fn display() {
    let s = RcString::from_str("foo\nbar");
    assert_eq!(format!("{}", s.to_string()), "foo\nbar")
}
