use bpx_api::{BpxError, Decimal};
use std::cmp::Ordering;

fn round_trip(s: &str) -> String {
    Decimal::parse(s).unwrap().to_wire_string()
}

#[test]
fn fractional_digits_are_kept() {
    assert_eq!(round_trip("1.500"), "1.500");
    assert_eq!(round_trip("0.0001"), "0.0001");
    assert_eq!(round_trip("173.35998175"), "173.35998175");
    assert_eq!(round_trip("100"), "100");
    assert_eq!(round_trip("-2.10"), "-2.10");
    assert_eq!(round_trip("0.00"), "0.00");
}

#[test]
fn canonical_text_drops_sign_of_zero_and_leading_zeros() {
    assert_eq!(round_trip("-0.00"), "0.00");
    assert_eq!(round_trip("+7.5"), "7.5");
    assert_eq!(round_trip("007.25"), "7.25");
}

#[test]
fn mantissa_and_scale() {
    let d = Decimal::parse("-0.0000039641039274236048482914").unwrap();
    assert_eq!(d.scale(), 28);
    assert_eq!(d.mantissa(), -39641039274236048482914);
    let e = Decimal::parse("173.44031179").unwrap();
    assert_eq!(e.mantissa(), 17344031179);
    assert_eq!(e.scale(), 8);
}

#[test]
fn same_digits_different_scale_differ() {
    assert_ne!(Decimal::parse("1.5").unwrap(), Decimal::parse("1.50").unwrap());
    assert_eq!(Decimal::parse("1.50").unwrap(), Decimal::parse("1.50").unwrap());
}

#[test]
fn invalid_decimals_are_rejected() {
    for s in ["", "abc", "1.2.3", "-", ".", "12a", "1,5"] {
        match Decimal::parse(s) {
            Err(BpxError::InvalidDecimal { input }) => assert_eq!(input, s),
            other => panic!("{s:?} gave {other:?}"),
        }
    }
}

#[test]
fn built_from_mantissa_and_scale() {
    let d = Decimal::try_from_i128_with_scale(12345, 2).unwrap();
    assert_eq!(d.to_wire_string(), "123.45");
    assert!(Decimal::try_from_i128_with_scale(1, 29).is_none());
    assert!(Decimal::try_from_i128_with_scale(1i128 << 96, 0).is_none());
    assert_eq!(Decimal::try_from_i128_with_scale(-5, 3).unwrap().to_wire_string(), "-0.005");
}

#[test]
fn numeric_comparison_ignores_scale() {
    let d = |s: &str| Decimal::parse(s).unwrap();
    assert_eq!(d("1.5").compare(&d("1.50")), Ordering::Equal);
    assert_eq!(d("-2").compare(&d("1")), Ordering::Less);
    assert_eq!(d("0.001").compare(&d("0.01")), Ordering::Less);
    assert_eq!(d("100").compare(&d("99.999")), Ordering::Greater);
    assert_eq!(d("-0.5").compare(&d("-0.01")), Ordering::Less);
}

#[test]
fn checked_sum_and_difference() {
    let d = |s: &str| Decimal::parse(s).unwrap();
    assert_eq!(d("1.5").checked_add(&d("2.25")).unwrap().to_wire_string(), "3.75");
    assert_eq!(d("1.5").checked_sub(&d("2.25")).unwrap().to_wire_string(), "-0.75");
    let max = d("79228162514264337593543950335");
    assert!(max.checked_add(&max).is_none());
    assert!(d("-79228162514264337593543950335").checked_sub(&max).is_none());
    assert_eq!(max.checked_sub(&max).unwrap().compare(&d("0")), Ordering::Equal);
}
