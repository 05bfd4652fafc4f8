use the_sapphire_star::decimal::Decimal;
use the_sapphire_star::decimal::MAX_EXPONENT;
use the_sapphire_star::length::Length;
use the_sapphire_star::length::Scale;

#[test]
fn decimal_is_kept_in_lowest_terms() {
    let d = Decimal::new(1_000, 0);
    assert_eq!(d.mantissa(), 1);
    assert_eq!(d.exponent(), 3);
    assert_eq!(Decimal::new(1_000, 0), Decimal::new(1, 3));
    assert_eq!(Decimal::new(-2_500, -3), Decimal::new(-25, -1));
    assert_eq!(Decimal::new(104, -2).mantissa(), 104);
    assert_eq!(Decimal::new(104, -2).exponent(), -2);
}

#[test]
fn decimal_zero_has_one_form() {
    let zero = Decimal::new(0, 17);
    assert_eq!(zero.mantissa(), 0);
    assert_eq!(zero.exponent(), 0);
    assert_eq!(Decimal::new(0, -300), Decimal::new(0, 0));
}

#[test]
fn decimal_takes_the_ends_of_its_range() {
    let d = Decimal::new(1_000_000_000_000_000_000, i16::MAX);
    assert_eq!(d.mantissa(), 1);
    assert_eq!(d.exponent(), MAX_EXPONENT);
    let d = Decimal::new(i64::MIN, i16::MIN);
    assert_eq!(d.mantissa(), i64::MIN);
    assert_eq!(d.exponent(), -32768);
    let d = Decimal::new(i64::MAX, 0);
    assert_eq!(d.mantissa(), i64::MAX);
    assert_eq!(Decimal::max().mantissa(), i64::MAX);
    assert_eq!(Decimal::max().exponent(), MAX_EXPONENT);
    assert_eq!(Decimal::min().mantissa(), i64::MIN);
    assert_eq!(Decimal::min().exponent(), MAX_EXPONENT);
}

#[test]
fn decimal_is_written_in_full() {
    assert_eq!(Decimal::new(0, 0).to_string(), "0");
    assert_eq!(Decimal::new(7, 0).to_string(), "7");
    assert_eq!(Decimal::new(104, -2).to_string(), "1.04");
    assert_eq!(Decimal::new(-104, -2).to_string(), "-1.04");
    assert_eq!(Decimal::new(16, 0).to_string(), "16");
    assert_eq!(Decimal::new(16, 3).to_string(), "16000");
    assert_eq!(Decimal::new(3, -7).to_string(), "0.0000003");
    assert_eq!(Decimal::new(5, -1).to_string(), "0.5");
    assert_eq!(Decimal::new(12_345, -5).to_string(), "0.12345");
    assert_eq!(Decimal::new(12_345, -4).to_string(), "1.2345");
    assert_eq!(Decimal::new(12_345, -1).to_string(), "1234.5");
    assert_eq!(Decimal::new(1_609_344, -3).to_string(), "1609.344");
    assert_eq!(Decimal::new(1, 30).to_string(), "1000000000000000000000000000000");
    assert_eq!(Decimal::new(i64::MIN, 0).to_string(), "-9223372036854775808");
    assert_eq!(Decimal::new(i64::MAX, -19).to_string(), "0.9223372036854775807");
    assert_eq!(Decimal::new(10_203_040, -4).to_string(), "1020.304");
}

#[test]
fn quotient_holds_the_exact_parts() {
    // 1 m in inches: 1 / 0.0254 = 10000 / 254.
    let q = Length::meters(Decimal::new(1, 0)).to_unit(Scale::Inch);
    assert_eq!(q.mantissa(), 1);
    assert_eq!(q.exponent(), 4);
    assert_eq!(q.divisor(), 254);
}

#[test]
fn quotient_equals_by_value() {
    // 127 m are 5000 inches, whatever form the two numbers have.
    let q = Length::meters(Decimal::new(127, 0)).to_unit(Scale::Inch);
    assert!(q.equals(Decimal::new(5, 3)));
    assert!(q.equals(Decimal::new(5_000, 0)));
    assert!(!q.equals(Decimal::new(5_001, 0)));
    assert!(!q.equals(Decimal::new(5, 2)));
    assert!(!q.equals(Decimal::new(-5, 3)));
    // 1 m is not a whole number of inches, nor any decimal number of them.
    let q = Length::meters(Decimal::new(1, 0)).to_unit(Scale::Inch);
    assert!(!q.equals(Decimal::new(3_937, -2)));
    assert!(!q.equals(Decimal::new(0, 0)));
    // Half an inch.
    let q = Length::meters(Decimal::new(127, -4)).to_unit(Scale::Inch);
    assert!(q.equals(Decimal::new(5, -1)));
    // Nothing is nothing in every unit.
    let q = Length::meters(Decimal::new(0, 0)).to_unit(Scale::Megaparsec);
    assert!(q.equals(Decimal::new(0, 0)));
    assert!(!q.equals(Decimal::new(1, -30_000)));
}

#[test]
fn quotient_equals_across_far_exponents() {
    let q = Length::meters(Decimal::new(1, 300)).to_unit(Scale::Meter);
    assert!(q.equals(Decimal::new(1, 300)));
    assert!(!q.equals(Decimal::new(1, 299)));
    assert!(!q.equals(Decimal::new(1, -300)));
    let q = Length::meters(Decimal::new(1, -300)).to_unit(Scale::Meter);
    assert!(q.equals(Decimal::new(1, -300)));
    assert!(!q.equals(Decimal::new(1, 300)));
    let q = Length::meters(Decimal::new(i64::MAX, i16::MAX)).to_unit(Scale::Millimeter);
    assert!(!q.equals(Decimal::new(i64::MAX, i16::MAX)));
    assert!(!q.equals(Decimal::new(i64::MIN, i16::MIN)));
    let q = Length::megaparsecs(Decimal::new(i64::MIN, 0)).to_unit(Scale::Megaparsec);
    assert!(q.equals(Decimal::new(i64::MIN, 0)));
    assert!(!q.equals(Decimal::new(i64::MAX, 0)));
}
