use asimov_telegram_module::decimal::{parse_i32, parse_i64, parse_u64};

#[test]
fn plain_digits_are_read() {
    assert_eq!(parse_i64("0"), Some(0));
    assert_eq!(parse_i64("12345"), Some(12345));
    assert_eq!(parse_i64("000123"), Some(123));
    assert_eq!(parse_u64("18446744073709551615"), Some(u64::MAX));
    assert_eq!(parse_i32("2147483647"), Some(i32::MAX));
}

#[test]
fn signs_are_read() {
    assert_eq!(parse_i64("-1"), Some(-1));
    assert_eq!(parse_i64("+17"), Some(17));
    assert_eq!(parse_i64("-9223372036854775808"), Some(i64::MIN));
    assert_eq!(parse_i32("-2147483648"), Some(i32::MIN));
    assert_eq!(parse_u64("+5"), Some(5));
    assert_eq!(parse_i64("-0"), Some(0));
}

#[test]
fn unsigned_takes_no_minus() {
    assert_eq!(parse_u64("-1"), None);
    assert_eq!(parse_u64("-0"), None);
}

#[test]
fn what_does_not_fit_is_no_number() {
    assert_eq!(parse_i64("9223372036854775808"), None);
    assert_eq!(parse_i64("-9223372036854775809"), None);
    assert_eq!(parse_u64("18446744073709551616"), None);
    assert_eq!(parse_i32("2147483648"), None);
    assert_eq!(parse_i32("-2147483649"), None);
    assert_eq!(parse_u64("99999999999999999999999999999999999999999"), None);
}

#[test]
fn malformed_text_is_no_number() {
    for text in ["", "+", "-", "1 ", " 1", "1_000", "12a", "a12", "--1", "+-1", "1.0", "٣", "not_a_number"] {
        assert_eq!(parse_i64(text), None, "{text:?}");
        assert_eq!(parse_u64(text), None, "{text:?}");
        assert_eq!(parse_i32(text), None, "{text:?}");
    }
}

#[test]
fn agrees_with_the_standard_parser() {
    for text in ["7", "-7", "+7", "007", "-", "", "12x", "9223372036854775807", "92233720368547758070"] {
        assert_eq!(parse_i64(text), text.parse::<i64>().ok(), "{text:?}");
        assert_eq!(parse_u64(text), text.parse::<u64>().ok(), "{text:?}");
        assert_eq!(parse_i32(text), text.parse::<i32>().ok(), "{text:?}");
    }
}
