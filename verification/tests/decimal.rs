use authcore::decimal::{parse_dec_str, u128_to_dec};

#[test]
fn renders_zero_and_small_numbers() {
    assert_eq!(u128_to_dec(0), "0");
    assert_eq!(u128_to_dec(7), "7");
    assert_eq!(u128_to_dec(10), "10");
    assert_eq!(u128_to_dec(90817263), "90817263");
}

#[test]
fn renders_the_largest_identifier() {
    assert_eq!(u128_to_dec(u128::MAX), "340282366920938463463374607431768211455");
}

#[test]
fn parses_what_it_renders() {
    for n in [0u128, 1, 9, 10, 99, 100, 123456789, u128::MAX - 1, u128::MAX] {
        assert_eq!(parse_dec_str(&u128_to_dec(n)), Some(n));
    }
}

#[test]
fn parses_leading_zeros() {
    assert_eq!(parse_dec_str("007"), Some(7));
    assert_eq!(parse_dec_str("000"), Some(0));
}

#[test]
fn rejects_empty_and_non_digits() {
    assert_eq!(parse_dec_str(""), None);
    assert_eq!(parse_dec_str("abc"), None);
    assert_eq!(parse_dec_str("12a"), None);
    assert_eq!(parse_dec_str("-1"), None);
    assert_eq!(parse_dec_str("1 2"), None);
}

#[test]
fn rejects_values_that_do_not_fit() {
    assert_eq!(parse_dec_str("340282366920938463463374607431768211456"), None);
    assert_eq!(parse_dec_str("999999999999999999999999999999999999999999"), None);
}
