use umpv::text::{chars_equal, chars_start_with, decimal, string_from, to_chars};

#[test]
fn decimal_notation() {
    assert_eq!(decimal(0), "0");
    assert_eq!(decimal(7), "7");
    assert_eq!(decimal(10), "10");
    assert_eq!(decimal(4294967295), "4294967295");
    assert_eq!(decimal(u64::MAX), "18446744073709551615");
}

#[test]
fn char_helpers() {
    let v = to_chars("--loadfile=é");
    assert_eq!(v.len(), 12);
    assert_eq!(string_from(&v, 11), "é");
    assert_eq!(string_from(&v, 12), "");
    assert!(chars_start_with(&v, &to_chars("--")));
    assert!(!chars_start_with(&to_chars("-"), &to_chars("--")));
    assert!(chars_equal(&to_chars("ab"), &to_chars("ab")));
    assert!(!chars_equal(&to_chars("ab"), &to_chars("abc")));
    assert_eq!(string_from(&to_chars("a🎬"), 0), "a🎬");
}
