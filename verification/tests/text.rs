use firebase_rest::text::{i64_to_text, parse_i64, str_equal};

#[test]
fn parse_i64_reads_plain_and_signed_digits() {
    assert_eq!(parse_i64("42"), Some(42));
    assert_eq!(parse_i64("-42"), Some(-42));
    assert_eq!(parse_i64("+7"), Some(7));
    assert_eq!(parse_i64("007"), Some(7));
    assert_eq!(parse_i64("0"), Some(0));
    assert_eq!(parse_i64("-0"), Some(0));
}

#[test]
fn parse_i64_refuses_what_is_no_integer() {
    assert_eq!(parse_i64(""), None);
    assert_eq!(parse_i64("-"), None);
    assert_eq!(parse_i64("+"), None);
    assert_eq!(parse_i64("12a"), None);
    assert_eq!(parse_i64(" 1"), None);
    assert_eq!(parse_i64("1 "), None);
    assert_eq!(parse_i64("+-5"), None);
    assert_eq!(parse_i64("1.5"), None);
    assert_eq!(parse_i64("١٢"), None);
}

#[test]
fn parse_i64_range_edges() {
    assert_eq!(parse_i64("9223372036854775807"), Some(i64::MAX));
    assert_eq!(parse_i64("9223372036854775808"), None);
    assert_eq!(parse_i64("-9223372036854775808"), Some(i64::MIN));
    assert_eq!(parse_i64("-9223372036854775809"), None);
    assert_eq!(parse_i64("99999999999999999999999"), None);
    assert_eq!(parse_i64("99999999999999999999999x"), None);
}

#[test]
fn parse_i64_agrees_with_std() {
    let cases = [
        "", "0", "1", "-1", "+1", "-", "+", "12", "0012", "-0012", "1e3", "0x10", "18446744073709551615",
        "9223372036854775806", "-9223372036854775807", "12345678901234567890", "--1", "++1", "1-", "é",
    ];
    for c in cases {
        assert_eq!(parse_i64(c), c.parse::<i64>().ok(), "case {:?}", c);
    }
}

#[test]
fn i64_to_text_writes_decimal() {
    assert_eq!(i64_to_text(0), "0");
    assert_eq!(i64_to_text(7), "7");
    assert_eq!(i64_to_text(-15), "-15");
    assert_eq!(i64_to_text(1234567890), "1234567890");
    assert_eq!(i64_to_text(i64::MAX), "9223372036854775807");
    assert_eq!(i64_to_text(i64::MIN), "-9223372036854775808");
}

#[test]
fn i64_text_reads_back() {
    for i in [0i64, 1, -1, 9, 10, -10, 99, 100, 65535, -65536, i64::MAX, i64::MIN, i64::MIN + 1] {
        assert_eq!(parse_i64(&i64_to_text(i)), Some(i));
        assert_eq!(i64_to_text(i), i.to_string());
    }
}

#[test]
fn str_equal_compares_characters() {
    assert!(str_equal("stringValue", "stringValue"));
    assert!(!str_equal("stringValue", "stringvalue"));
    assert!(!str_equal("a", "ab"));
    assert!(str_equal("", ""));
}
