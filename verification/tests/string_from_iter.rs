use rc_vec::string::RcString;

#[test]
fn from_str_iter_empty() {
    let parts: Vec<&str> = vec![];
    let mut s = RcString::new();
    for p in parts {
        s.push_str(p);
    }
    assert_eq!(s.to_string(), "");
}

#[test]
fn from_str_iter() {
    let mut s = RcString::new();
    for p in vec!["foo", "bar", "baz"] {
        s.push_str(p);
    }
    assert_eq!(s.to_string(), "foobarbaz");
}

#[test]
fn from_self_iter_empty() {
    let parts: Vec<RcString> = vec![];
    let s = RcString::concat_all(&parts);
    assert_eq!(s.to_string(), "");
}

#[test]
fn from_self_iter() {
    let parts = vec![
        RcString::from_str("foo"),
        RcString::from_str("bar"),
        RcString::from_str("baz"),
    ];
    let s = RcString::concat_all(&parts);
    assert_eq!(s.to_string(), "foobarbaz");
}

#[test]
fn from_self_ref_iter_empty() {
    let parts: Vec<RcString> = vec![];
    let mut s = RcString::new();
    for p in parts.iter() {
        s.append(p);
    }
    assert_eq!(s.to_string(), "");
}

#[test]
fn from_self_ref_iter() {
    let parts = vec![
        RcString::from_str("foo"),
        RcString::from_str("bar"),
        RcString::from_str("baz"),
    ];
    let mut s = RcString::new();
    for p in parts.iter() {
        s.append(p);
    }
    assert_eq!(s.to_string(), "foobarbaz");
}

#[test]
fn from_string_iter_empty() {
    let parts: Vec<String> = vec![];
    let mut s = RcString::new();
    for p in parts {
        s.push_str(&p);
    }
    assert_eq!(s.to_string(), "");
}

#[test]
fn from_string_iter() {
    let parts = vec![String::from("foo"), String::from("bar"), String::from("baz")];
    let mut s = RcString::new();
    for p in parts {
        s.push_str(&p);
    }
    assert_eq!(s.to_string(), "foobarbaz");
}

#[test]
fn from_string_ref_iter_empty() {
    let parts: Vec<String> = vec![];
    let mut s = RcString::new();
    for p in parts.iter() {
        s.push_str(p);
    }
    assert_eq!(s.to_string(), "");
}

#[test]
fn from_string_ref_iter() {
    let parts = vec![String::from("foo"), String::from("bar"), String::from("baz")];
    let mut s = RcString::new();
    for p in parts.iter() {
        s.push_str(p);
    }
    assert_eq!(s.to_string(), "foobarbaz");
}
