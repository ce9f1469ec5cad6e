use exercises::decimal::{append_decimal, decimal_string, signed_decimal_string};

#[test]
fn zero_is_a_single_digit() {
    assert_eq!(decimal_string(0), "0");
    assert_eq!(signed_decimal_string(0), "0");
}

#[test]
fn single_digits() {
    let expected = ["0", "1", "2", "3", "4", "5", "6", "7", "8", "9"];
    for (n, text) in expected.iter().enumerate() {
        assert_eq!(decimal_string(n as u64), *text);
    }
}

#[test]
fn several_digits_come_most_significant_first() {
    assert_eq!(decimal_string(10), "10");
    assert_eq!(decimal_string(42), "42");
    assert_eq!(decimal_string(100), "100");
    assert_eq!(decimal_string(1234567890), "1234567890");
}

#[test]
fn largest_unsigned_number() {
    assert_eq!(decimal_string(u64::MAX), "18446744073709551615");
}

#[test]
fn agrees_with_the_standard_rendering() {
    for n in 0u64..2000 {
        assert_eq!(decimal_string(n), n.to_string());
    }
    for x in -2000i64..2000 {
        assert_eq!(signed_decimal_string(x), x.to_string());
    }
}

#[test]
fn negative_numbers_carry_a_sign() {
    assert_eq!(signed_decimal_string(-1), "-1");
    assert_eq!(signed_decimal_string(-45), "-45");
    assert_eq!(signed_decimal_string(45), "45");
}

#[test]
fn extremes_of_the_signed_range() {
    assert_eq!(signed_decimal_string(i64::MIN), "-9223372036854775808");
    assert_eq!(signed_decimal_string(i64::MAX), "9223372036854775807");
}

#[test]
fn append_keeps_what_was_there() {
    let mut text = String::from("n = ");
    append_decimal(&mut text, 305);
    assert_eq!(text, "n = 305");
    append_decimal(&mut text, 0);
    assert_eq!(text, "n = 3050");
}
