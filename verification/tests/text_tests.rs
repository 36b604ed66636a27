use gh_export::text::{bool_text, decimal_string, parse_usize, push_decimal, same_text};

#[test]
fn numerals_have_no_leading_zeros() {
    assert_eq!(decimal_string(0), "0");
    assert_eq!(decimal_string(7), "7");
    assert_eq!(decimal_string(10), "10");
    assert_eq!(decimal_string(1234567890), "1234567890");
    assert_eq!(decimal_string(u64::MAX), "18446744073709551615");
    let mut text = "n=".to_string();
    push_decimal(&mut text, 405);
    assert_eq!(text, "n=405");
}

#[test]
fn numerals_agree_with_the_standard_library() {
    let mut value: u64 = 1;
    for _ in 0..200 {
        assert_eq!(decimal_string(value), value.to_string());
        value = value.wrapping_mul(2862933555777941757).wrapping_add(3037000493);
    }
}

#[test]
fn numerals_are_read() {
    assert_eq!(parse_usize("0"), Some(0));
    assert_eq!(parse_usize("4"), Some(4));
    assert_eq!(parse_usize("007"), Some(7));
    assert_eq!(parse_usize("+12"), Some(12));
    assert_eq!(parse_usize(&usize::MAX.to_string()), Some(usize::MAX));
}

#[test]
fn what_is_no_numeral_is_refused() {
    for text in ["", "+", "-", "-1", "++1", "1+", " 1", "1 ", "1.5", "abc", "12a", "٣", "1_000"] {
        assert_eq!(parse_usize(text), None, "{text:?}");
    }
    assert_eq!(parse_usize("18446744073709551616"), None);
    assert_eq!(parse_usize("99999999999999999999999999"), None);
}

#[test]
fn reading_agrees_with_the_standard_library() {
    let samples = [
        "0", "1", "10", "0010", "+5", "+", "-", "", "-0", "+0", "18446744073709551615",
        "18446744073709551616", "+18446744073709551615", "1844674407370955161x", "4 ", "٤",
        "1e3", "0x10", "+-1", "00000000000000000000000000000001",
    ];
    for text in samples {
        assert_eq!(parse_usize(text), text.parse::<usize>().ok(), "{text:?}");
    }
}

#[test]
fn written_numbers_are_read_back() {
    for value in [0usize, 1, 9, 10, 99, 100, 12345, usize::MAX / 2, usize::MAX] {
        assert_eq!(parse_usize(&decimal_string(value as u64)), Some(value));
    }
}

#[test]
fn texts_are_compared_and_truth_values_named() {
    assert!(same_text("token", "token"));
    assert!(!same_text("token", "Token"));
    assert!(!same_text("token", "tokens"));
    assert_eq!(bool_text(true), "true");
    assert_eq!(bool_text(false), "false");
}
