use macro_manager::numtext::{i64_text, parse_i32, u64_text};

#[test]
fn u64_text_writes_decimal_digits() {
    assert_eq!(u64_text(0), "0");
    assert_eq!(u64_text(7), "7");
    assert_eq!(u64_text(10), "10");
    assert_eq!(u64_text(1234567890), "1234567890");
    assert_eq!(u64_text(u64::MAX), "18446744073709551615");
}

#[test]
fn i64_text_writes_sign_and_digits() {
    assert_eq!(i64_text(0), "0");
    assert_eq!(i64_text(-42), "-42");
    assert_eq!(i64_text(i64::MAX), "9223372036854775807");
    assert_eq!(i64_text(i64::MIN), "-9223372036854775808");
}

#[test]
fn texts_agree_with_to_string() {
    for n in [0u64, 1, 9, 10, 99, 100, 65535, 4294967295, 1 << 40] {
        assert_eq!(u64_text(n), n.to_string());
    }
    for n in [0i64, -1, 1, -10, 10, -99999, i64::MIN + 1, i64::MAX] {
        assert_eq!(i64_text(n), n.to_string());
    }
}

#[test]
fn parse_i32_reads_signed_numbers() {
    assert_eq!(parse_i32("123"), Some(123));
    assert_eq!(parse_i32("+7"), Some(7));
    assert_eq!(parse_i32("-0"), Some(0));
    assert_eq!(parse_i32("007"), Some(7));
    assert_eq!(parse_i32("2147483647"), Some(i32::MAX));
    assert_eq!(parse_i32("-2147483648"), Some(i32::MIN));
}

#[test]
fn parse_i32_refuses_other_text() {
    assert_eq!(parse_i32(""), None);
    assert_eq!(parse_i32("-"), None);
    assert_eq!(parse_i32("+"), None);
    assert_eq!(parse_i32("12a"), None);
    assert_eq!(parse_i32(" 1"), None);
    assert_eq!(parse_i32("1\n"), None);
    assert_eq!(parse_i32("2147483648"), None);
    assert_eq!(parse_i32("-2147483649"), None);
    assert_eq!(parse_i32("99999999999999999999"), None);
    assert_eq!(parse_i32("1_000"), None);
}

#[test]
fn parse_i32_agrees_with_std() {
    let cases = [
        "", "0", "-0", "+0", "42", "-42", "+-1", "--1", "1-", "٣", "2147483647", "2147483648",
        "-2147483648", "-2147483649", "0000000000002", "abc", "1.5", "1e3", " ", "\t5",
    ];
    for c in cases {
        assert_eq!(parse_i32(c), c.parse::<i32>().ok(), "text {:?}", c);
    }
}

#[test]
fn decimal_text_of_i32_reads_back() {
    for n in [0i32, 1, -1, 12345, -12345, i32::MAX, i32::MIN] {
        assert_eq!(parse_i32(&i64_text(n as i64)), Some(n));
    }
}
