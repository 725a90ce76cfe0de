use vaffelbot::text::{i64_to_decimal, parse_u64_str, u64_to_decimal};

#[test]
fn decimal_of_unsigned_numbers() {
    assert_eq!(u64_to_decimal(0), "0");
    assert_eq!(u64_to_decimal(7), "7");
    assert_eq!(u64_to_decimal(10), "10");
    assert_eq!(u64_to_decimal(1234567890), "1234567890");
    assert_eq!(u64_to_decimal(u64::MAX), "18446744073709551615");
}

#[test]
fn decimal_of_signed_numbers() {
    assert_eq!(i64_to_decimal(0), "0");
    assert_eq!(i64_to_decimal(-1), "-1");
    assert_eq!(i64_to_decimal(42), "42");
    assert_eq!(i64_to_decimal(i64::MIN), "-9223372036854775808");
    assert_eq!(i64_to_decimal(i64::MAX), "9223372036854775807");
}

#[test]
fn parsing_agrees_with_std() {
    let cases = [
        "0", "1", "+1", "-1", "", "+", "++1", "007", "1_000", " 1", "1 ", "18446744073709551615",
        "18446744073709551616", "99999999999999999999", "٣", "12ab",
    ];
    for case in cases {
        assert_eq!(parse_u64_str(case), case.parse::<u64>().ok(), "{case}");
    }
}

#[test]
fn parsing_reads_back_what_was_written() {
    for n in [0u64, 1, 9, 10, 99, 100, 65535, u64::MAX] {
        assert_eq!(parse_u64_str(&u64_to_decimal(n)), Some(n));
    }
}
