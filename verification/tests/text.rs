use limbo::utils::text::{decimal_string, signed_decimal_string};

#[test]
fn unsigned_numbers_are_written_in_decimal() {
    assert_eq!(decimal_string(0), "0");
    assert_eq!(decimal_string(7), "7");
    assert_eq!(decimal_string(10), "10");
    assert_eq!(decimal_string(131068), "131068");
    assert_eq!(decimal_string(1000000007), "1000000007");
    assert_eq!(decimal_string(u64::MAX), "18446744073709551615");
}

#[test]
fn signed_numbers_are_written_in_decimal() {
    assert_eq!(signed_decimal_string(0), "0");
    assert_eq!(signed_decimal_string(42), "42");
    assert_eq!(signed_decimal_string(-1), "-1");
    assert_eq!(signed_decimal_string(-2147483648), "-2147483648");
    assert_eq!(signed_decimal_string(i64::MAX), "9223372036854775807");
    assert_eq!(signed_decimal_string(i64::MIN), "-9223372036854775808");
}

#[test]
fn decimal_agrees_with_the_standard_formatting() {
    for n in [0u64, 9, 10, 99, 100, 101, 65535, 4294967295, 4294967296] {
        assert_eq!(decimal_string(n), n.to_string());
    }
    for n in [-100i64, -99, -10, -9, 9, 10, 99, 100] {
        assert_eq!(signed_decimal_string(n), n.to_string());
    }
}
