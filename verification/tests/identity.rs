use user_crud::identity::{opaque_key, parse_integer_key};

#[test]
fn integer_key_plain_number() {
    assert_eq!(parse_integer_key("42"), Some(42));
}

#[test]
fn integer_key_signs() {
    assert_eq!(parse_integer_key("-7"), Some(-7));
    assert_eq!(parse_integer_key("+7"), Some(7));
    assert_eq!(parse_integer_key("-0"), Some(0));
}

#[test]
fn integer_key_bounds() {
    assert_eq!(parse_integer_key("2147483647"), Some(i32::MAX));
    assert_eq!(parse_integer_key("-2147483648"), Some(i32::MIN));
    assert_eq!(parse_integer_key("2147483648"), None);
    assert_eq!(parse_integer_key("-2147483649"), None);
    assert_eq!(parse_integer_key("99999999999999999999999999"), None);
}

#[test]
fn integer_key_leading_zeros() {
    assert_eq!(parse_integer_key("0000000000000000000000012"), Some(12));
}

#[test]
fn integer_key_rejects_other_text() {
    assert_eq!(parse_integer_key(""), None);
    assert_eq!(parse_integer_key("-"), None);
    assert_eq!(parse_integer_key("+"), None);
    assert_eq!(parse_integer_key("12a"), None);
    assert_eq!(parse_integer_key(" 12"), None);
    assert_eq!(parse_integer_key("1_000"), None);
    assert_eq!(parse_integer_key("--1"), None);
    assert_eq!(parse_integer_key("\u{663}"), None);
    assert_eq!(parse_integer_key("1\u{e9}"), None);
}

#[test]
fn integer_key_agrees_with_std() {
    let samples = ["0", "1", "-1", "+0", "007", "2147483647", "-2147483648", "2147483648", "x", "", "+-1", "1.0"];
    for sample in samples {
        assert_eq!(parse_integer_key(sample), sample.parse::<i32>().ok());
    }
}

#[test]
fn opaque_key_is_unchanged() {
    assert_eq!(opaque_key("3f2b-x"), "3f2b-x".to_string());
    assert_eq!(opaque_key(""), String::new());
}
