use nft_marketplace::decimal::{decimal_string, parse_decimal};

#[test]
fn decimal_string_writes_single_digits() {
    let digits = ["0", "1", "2", "3", "4", "5", "6", "7", "8", "9"];
    for (n, text) in digits.iter().enumerate() {
        assert_eq!(decimal_string(n as u128), *text);
    }
}

#[test]
fn decimal_string_writes_longer_numerals() {
    assert_eq!(decimal_string(10), "10");
    assert_eq!(decimal_string(99), "99");
    assert_eq!(decimal_string(100), "100");
    assert_eq!(decimal_string(1_234_567_890), "1234567890");
    assert_eq!(
        decimal_string(u128::MAX),
        "340282366920938463463374607431768211455"
    );
}

#[test]
fn decimal_string_agrees_with_std() {
    let mut n: u128 = 1;
    for _ in 0..38 {
        assert_eq!(decimal_string(n), n.to_string());
        assert_eq!(decimal_string(n - 1), (n - 1).to_string());
        n *= 10;
    }
}

#[test]
fn parse_decimal_reads_numerals() {
    assert_eq!(parse_decimal("0"), Some(0));
    assert_eq!(parse_decimal("1"), Some(1));
    assert_eq!(parse_decimal("10"), Some(10));
    assert_eq!(parse_decimal("907"), Some(907));
    assert_eq!(parse_decimal("18446744073709551615"), Some(u64::MAX));
}

#[test]
fn parse_decimal_refuses_what_does_not_fit() {
    assert_eq!(parse_decimal("18446744073709551616"), None);
    assert_eq!(parse_decimal("99999999999999999999"), None);
    assert_eq!(parse_decimal("340282366920938463463374607431768211455"), None);
    assert_eq!(
        parse_decimal("1000000000000000000000000000000000000000000000000000000000000"),
        None
    );
}

#[test]
fn parse_decimal_refuses_what_is_no_numeral() {
    assert_eq!(parse_decimal(""), None);
    assert_eq!(parse_decimal("01"), None);
    assert_eq!(parse_decimal("00"), None);
    assert_eq!(parse_decimal("1a"), None);
    assert_eq!(parse_decimal("a1"), None);
    assert_eq!(parse_decimal("+1"), None);
    assert_eq!(parse_decimal("-1"), None);
    assert_eq!(parse_decimal(" 1"), None);
    assert_eq!(parse_decimal("1 "), None);
    assert_eq!(parse_decimal("1_000"), None);
    assert_eq!(parse_decimal("\u{0661}"), None);
}

#[test]
fn parse_decimal_inverts_decimal_string() {
    for n in [0u64, 1, 9, 10, 11, 99, 100, 101, 65_535, 4_294_967_296, u64::MAX - 1, u64::MAX] {
        assert_eq!(parse_decimal(&decimal_string(n as u128)), Some(n));
    }
}
