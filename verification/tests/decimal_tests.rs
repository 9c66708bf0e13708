//! The exact decimal codec.

use apca_rest::decimal::{format_decimal, parse_decimal, parse_int64, Decimal};

#[test]
fn format_exact_values() {
    assert_eq!(format_decimal(&Decimal::new(100, 0)), "100".to_string());
    assert_eq!(format_decimal(&Decimal::new(2985, 1)), "298.5".to_string());
    assert_eq!(format_decimal(&Decimal::new(10700, 2)), "107.00".to_string());
    assert_eq!(format_decimal(&Decimal::new(0, 0)), "0".to_string());
    assert_eq!(format_decimal(&Decimal::new(-5, 1)), "-0.5".to_string());
    assert_eq!(format_decimal(&Decimal::new(-23140200, 1)), "-2314020.0".to_string());
}

#[test]
fn parse_exact_values() {
    assert_eq!(parse_decimal("100"), Some(Decimal::new(100, 0)));
    assert_eq!(parse_decimal("298.5"), Some(Decimal::new(2985, 1)));
    assert_eq!(parse_decimal("107.00"), Some(Decimal::new(10700, 2)));
    assert_eq!(parse_decimal("-0.5"), Some(Decimal::new(-5, 1)));
    assert_eq!(parse_decimal("0.0084"), Some(Decimal::new(84, 4)));
}

#[test]
fn parse_rejects_malformed_tokens() {
    assert_eq!(parse_decimal(""), None);
    assert_eq!(parse_decimal("-"), None);
    assert_eq!(parse_decimal("."), None);
    assert_eq!(parse_decimal("1."), None);
    assert_eq!(parse_decimal(".5"), None);
    assert_eq!(parse_decimal("1.2.3"), None);
    assert_eq!(parse_decimal("12a"), None);
    assert_eq!(parse_decimal("1e5"), None);
    // more fractional digits than the codec's largest scale
    assert_eq!(parse_decimal("0.00000000000000000000000000001"), None);
}

#[test]
fn parse_respects_mantissa_bound() {
    // the largest mantissa the codec accepts, and one more
    assert_eq!(
        parse_decimal("79228162514264337593543950335"),
        Some(Decimal {
            mantissa: 79228162514264337593543950335,
            scale: 0
        })
    );
    assert_eq!(parse_decimal("79228162514264337593543950336"), None);
}

#[test]
fn round_trip_preserves_precision() {
    for d in [
        Decimal::new(100, 0),
        Decimal::new(2985, 1),
        Decimal::new(10700, 2),
        Decimal::new(0, 28),
        Decimal::new(-1, 5),
        Decimal::new(i64::MAX, 3),
    ] {
        assert_eq!(parse_decimal(&format_decimal(&d)), Some(d));
    }
}

#[test]
fn integer_tokens() {
    assert_eq!(parse_int64("1580826600000"), Some(1580826600000));
    assert_eq!(parse_int64("-3"), Some(-3));
    assert_eq!(parse_int64("1.5"), None);
    assert_eq!(parse_int64("x"), None);
}
