use hoj::text::{chars_of, double_quotes, i64_to_string, parse_decimal, same_text};

#[test]
fn integers_are_written_as_decimals() {
    assert_eq!(i64_to_string(0), "0");
    assert_eq!(i64_to_string(7), "7");
    assert_eq!(i64_to_string(10), "10");
    assert_eq!(i64_to_string(-45), "-45");
    assert_eq!(i64_to_string(i64::MAX), "9223372036854775807");
    assert_eq!(i64_to_string(i64::MIN), "-9223372036854775808");
}

#[test]
fn decimals_are_read_as_the_standard_library_reads_them() {
    for s in ["0", "12", "-12", "+12", "007", "", "-", "+", "1a", " 1", "9223372036854775807",
        "9223372036854775808", "-9223372036854775808", "-9223372036854775809", "99999999999999999999",
        "--1", "1-", "١٢"] {
        assert_eq!(parse_decimal(s), s.parse::<i64>().ok(), "{:?}", s);
    }
}

#[test]
fn quotes_are_doubled() {
    assert_eq!(double_quotes("it's"), "it''s");
    assert_eq!(double_quotes("''"), "''''");
    assert_eq!(double_quotes("plain"), "plain");
    assert_eq!(double_quotes(""), "");
}

#[test]
fn texts_are_compared_by_their_characters() {
    assert!(same_text("abc", "abc"));
    assert!(!same_text("abc", "abd"));
    assert!(!same_text("abc", "ab"));
    assert_eq!(chars_of("héllo"), vec!['h', 'é', 'l', 'l', 'o']);
}
