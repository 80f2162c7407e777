use dataverse::text::{
    last_segment_of, replace_text, same_text, starts_with, to_decimal, to_signed_decimal,
};

#[test]
fn decimal_notation() {
    assert_eq!(to_decimal(0), "0");
    assert_eq!(to_decimal(7), "7");
    assert_eq!(to_decimal(10), "10");
    assert_eq!(to_decimal(10240), "10240");
    assert_eq!(to_decimal(u64::MAX), "18446744073709551615");
    assert_eq!(to_signed_decimal(-1), "-1");
    assert_eq!(to_signed_decimal(i64::MAX), "9223372036854775807");
}

#[test]
fn text_comparison() {
    assert!(same_text("abc", "abc"));
    assert!(!same_text("abc", "abd"));
    assert!(!same_text("abc", "ab"));
    assert!(same_text("", ""));
    assert!(starts_with("http://localstack:4566/x", "http://localstack"));
    assert!(!starts_with("http://local", "http://localstack"));
    assert!(starts_with("anything", ""));
}

#[test]
fn replacement_is_left_to_right_and_total() {
    assert_eq!(replace_text("aaa", "aa", "b"), "ba");
    assert_eq!(replace_text("a-b-c", "-", "+"), "a+b+c");
    assert_eq!(replace_text("none here", "xyz", "q"), "none here");
    assert_eq!(replace_text("", "x", "y"), "");
    assert_eq!(replace_text("äöä", "ö", "oe"), "äoeä");
}

#[test]
fn last_path_segment() {
    assert_eq!(last_segment_of("tests/fixtures/file.txt"), "file.txt");
    assert_eq!(last_segment_of("file.txt"), "file.txt");
    assert_eq!(last_segment_of("dir/"), "");
    assert_eq!(last_segment_of(""), "");
}
