use multiping::text::{char_is_digit, chars_contain, chars_have, chars_of, push_decimal};

fn contains_text(hay: &str, needle: &str) -> bool {
    chars_contain(&chars_of(hay), needle)
}

fn decimal_of(n: u128) -> String {
    let mut out = String::new();
    push_decimal(&mut out, n);
    out
}

#[test]
fn decimal_numerals() {
    assert_eq!(decimal_of(0), "0");
    assert_eq!(decimal_of(7), "7");
    assert_eq!(decimal_of(10), "10");
    assert_eq!(decimal_of(1234567890), "1234567890");
    assert_eq!(decimal_of(u64::MAX as u128), "18446744073709551615");
    assert_eq!(decimal_of(u128::MAX), u128::MAX.to_string());
}

#[test]
fn decimal_is_appended() {
    let mut out = String::from("n = ");
    push_decimal(&mut out, 42);
    assert_eq!(out, "n = 42");
}

#[test]
fn characters_one_by_one() {
    assert_eq!(chars_of(""), Vec::<char>::new());
    assert_eq!(chars_of("a:b"), vec!['a', ':', 'b']);
    assert_eq!(chars_of("é→x"), vec!['é', '→', 'x']);
}

#[test]
fn substring_search() {
    assert!(contains_text("request timeout after 1s", "timeout"));
    assert!(contains_text("timeout", "timeout"));
    assert!(contains_text("a timeout", "timeout"));
    assert!(!contains_text("timeou", "timeout"));
    assert!(!contains_text("time out", "timeout"));
    assert!(!contains_text("", "timeout"));
    assert!(contains_text("anything", ""));
    assert!(contains_text("", ""));
    assert!(contains_text("aab", "ab"));
    assert!(contains_text("héllo wörld", "wör"));
}

#[test]
fn character_search() {
    let chars = chars_of("host:80");
    assert!(chars_have(&chars, ':', 7));
    assert!(chars_have(&chars, ':', 5));
    assert!(!chars_have(&chars, ':', 4));
    assert!(!chars_have(&chars, ':', 0));
    assert!(!chars_have(&chars, 'x', 7));
    assert!(!chars_have(&chars_of(""), ':', 0));
}

#[test]
fn digits() {
    for c in '0'..='9' {
        assert!(char_is_digit(c));
    }
    for c in ['/', ':', 'a', ' ', '٣', '-'] {
        assert!(!char_is_digit(c));
    }
}
