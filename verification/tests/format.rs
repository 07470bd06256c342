use viewport_axis::axis::AxisHints;
use viewport_axis::axis::FixedRange;
use viewport_axis::fixed::Fixed;
use viewport_axis::numfmt::{dec_string, format_default};

fn range() -> FixedRange {
    FixedRange::new(Fixed::zero(), Fixed::zero())
}

#[test]
fn rounds_to_five_decimals() {
    // 123.456789 with a five-digit budget rounds, it does not go scientific.
    let v = Fixed::from_micros(123_456_789);
    assert_eq!(format_default(v, 5), "123.45679");
}

#[test]
fn large_value_goes_scientific() {
    let v = Fixed::from_int(1_000_000_000);
    assert_eq!(format_default(v, 5), "+1e9");
}

#[test]
fn zero_stays_plain() {
    assert_eq!(format_default(Fixed::zero(), 5), "0");
}

#[test]
fn default_formatter_matches_format_default() {
    let v = Fixed::from_micros(123_456_789);
    assert_eq!(AxisHints::default_formatter(v, 5, &range()), "123.45679");
}

#[test]
fn negative_value_keeps_sign() {
    let v = Fixed::from_micros(-123_456_789);
    assert_eq!(format_default(v, 5), "-123.45679");
}

#[test]
fn scientific_with_fraction() {
    // 12345.6789 with a three-digit budget: scientific of the whole part.
    let v = Fixed::from_micros(12_345_678_900);
    assert_eq!(format_default(v, 3), "+1.2345e4");
}

#[test]
fn negative_scientific() {
    let v = Fixed::from_micros(-12_345_678_900);
    assert_eq!(format_default(v, 3), "-1.2345e4");
}

#[test]
fn tiny_value_rounds_up_to_scientific() {
    // 0.000006 is below 10^-5 and rounds up to one in the fifth place.
    let v = Fixed::from_micros(6);
    assert_eq!(format_default(v, 5), "+1e-5");
}

#[test]
fn tiny_value_rounds_down_to_zero() {
    // 0.000004 is below 10^-5 and rounds to zero.
    let v = Fixed::from_micros(4);
    assert_eq!(format_default(v, 5), "+0e0");
}

#[test]
fn tiny_negative_keeps_sign() {
    let v = Fixed::from_micros(-6);
    assert_eq!(format_default(v, 5), "-1e-5");
}

#[test]
fn tiny_negative_zero_keeps_sign() {
    // -0.000004 rounds away to zero but stays a negative zero.
    let v = Fixed::from_micros(-4);
    assert_eq!(format_default(v, 5), "-0e0");
}

#[test]
fn trailing_zeros_are_stripped() {
    // 2.5 stays 2.5; 2.0 prints as 2.
    assert_eq!(format_default(Fixed::from_micros(2_500_000), 5), "2.5");
    assert_eq!(format_default(Fixed::from_int(2), 5), "2");
}

#[test]
fn fraction_below_one() {
    assert_eq!(format_default(Fixed::from_micros(-500_000), 5), "-0.5");
}

#[test]
fn zero_digit_budget() {
    // With no decimal budget, 0.4 rounds to 0 and 0.6 rounds up to one unit.
    assert_eq!(format_default(Fixed::from_micros(400_000), 0), "+0e0");
    assert_eq!(format_default(Fixed::from_micros(600_000), 0), "+1e0");
}

#[test]
fn decimal_digits_of_whole_numbers() {
    assert_eq!(dec_string(0), "0");
    assert_eq!(dec_string(907), "907");
}
