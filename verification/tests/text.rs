use movey::text::{concat3, contains_str, decimal_string, ends_with_str, last_piece_of, replace_str, starts_with_str, take_chars};

#[test]
fn replacing_goes_left_to_right_without_overlaps() {
    assert_eq!(replace_str("aaa", "aa", "b"), "ba");
    assert_eq!(replace_str("a:b:c", ":", "/"), "a/b/c");
    assert_eq!(replace_str("abc", "x", "y"), "abc");
}

#[test]
fn text_queries_match_str() {
    assert!(contains_str("hello", "ell"));
    assert!(!contains_str("hello", "xyz"));
    assert!(starts_with_str("git@github.com:o/r", "git@github.com"));
    assert!(ends_with_str("r.git", ".git"));
    assert!(!ends_with_str("git", ".git"));
    assert_eq!(take_chars("héllo", 2), "hé");
    assert_eq!(concat3("a", "b", "c"), "abc");
}

#[test]
fn the_last_piece_follows_the_last_separator() {
    assert_eq!(last_piece_of("x?ref=abc", "ref="), "abc");
    assert_eq!(last_piece_of("none", "ref="), "none");
    assert_eq!(last_piece_of("a=1ref=2ref=3", "ref="), "3");
}

#[test]
fn numbers_are_written_in_decimal() {
    assert_eq!(decimal_string(0), "0");
    assert_eq!(decimal_string(2), "2");
    assert_eq!(decimal_string(18446744073709551615), "18446744073709551615");
}

#[test]
fn integers_are_read_as_str_parse_reads_them() {
    let cases = ["0", "42", "+7", "-7", "-2147483648", "2147483647", "2147483648", "-2147483649", "", "+", "-", " 1", "1 ", "12a", "99999999999999999999", "007"];
    for c in cases {
        assert_eq!(movey::text::parse_i32(c), c.parse::<i32>().ok(), "{:?}", c);
    }
}
