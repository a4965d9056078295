use doctainr::text::{
    append_decimal, append_signed_decimal, cut_at_first, take_chars, trim_leading_char,
};

#[test]
fn digits_are_written_one_by_one() {
    let mut out = String::new();
    for digit in 0u128..10 {
        append_decimal(&mut out, digit);
    }
    assert_eq!(out, "0123456789");
}

#[test]
fn decimal_is_appended_after_what_is_there() {
    let mut out = String::from("n=");
    append_decimal(&mut out, 0);
    assert_eq!(out, "n=0");
    append_decimal(&mut out, 65535);
    assert_eq!(out, "n=065535");
    let mut big = String::new();
    append_decimal(&mut big, u128::MAX);
    assert_eq!(big, "340282366920938463463374607431768211455");
}

#[test]
fn decimal_matches_the_standard_rendering() {
    let mut n: u128 = 0;
    while n < 1_000_000_000_000_000_000_000 {
        let mut out = String::new();
        append_decimal(&mut out, n);
        assert_eq!(out, format!("{}", n));
        n = n * 3 + 7;
    }
}

#[test]
fn signed_decimal_puts_the_sign_first() {
    let mut out = String::new();
    append_signed_decimal(&mut out, -42);
    assert_eq!(out, "-42");
    let mut low = String::new();
    append_signed_decimal(&mut low, i64::MIN);
    assert_eq!(low, "-9223372036854775808");
    let mut high = String::new();
    append_signed_decimal(&mut high, i64::MAX);
    assert_eq!(high, "9223372036854775807");
    let mut zero = String::new();
    append_signed_decimal(&mut zero, 0);
    assert_eq!(zero, "0");
}

#[test]
fn take_chars_counts_characters() {
    assert_eq!(take_chars("abcdef", 3), "abc");
    assert_eq!(take_chars("abc", 3), "abc");
    assert_eq!(take_chars("ab", 3), "ab");
    assert_eq!(take_chars("", 3), "");
    assert_eq!(take_chars("abc", 0), "");
    assert_eq!(take_chars("äöüß", 2), "äö");
}

#[test]
fn trim_leading_char_removes_the_whole_run() {
    assert_eq!(trim_leading_char("/web", '/'), "web");
    assert_eq!(trim_leading_char("///web", '/'), "web");
    assert_eq!(trim_leading_char("web", '/'), "web");
    assert_eq!(trim_leading_char("web/", '/'), "web/");
    assert_eq!(trim_leading_char("/a/b", '/'), "a/b");
    assert_eq!(trim_leading_char("//", '/'), "");
    assert_eq!(trim_leading_char("", '/'), "");
}

#[test]
fn trim_leading_char_agrees_with_the_standard_one() {
    for text in ["/x", "x", "//x/y/", "", "/", "é/", "/é"] {
        assert_eq!(trim_leading_char(text, '/'), text.trim_start_matches('/'));
    }
}

#[test]
fn cut_at_first_splits_once() {
    assert_eq!(cut_at_first("nginx:latest", ':'), ("nginx".to_string(), Some("latest".to_string())));
    assert_eq!(cut_at_first("nginx", ':'), ("nginx".to_string(), None));
    assert_eq!(cut_at_first("a:b:c", ':'), ("a".to_string(), Some("b:c".to_string())));
    assert_eq!(cut_at_first(":b", ':'), ("".to_string(), Some("b".to_string())));
    assert_eq!(cut_at_first("a:", ':'), ("a".to_string(), Some("".to_string())));
    assert_eq!(cut_at_first("", ':'), ("".to_string(), None));
}
