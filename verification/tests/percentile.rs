use scheduler_config::percentile::{
    validated_percentiles, default_percentiles, FRACTION_SPAN, NEGATIVE_ZERO_BITS, ONE_HUNDRED_BITS,
};
use scheduler_config::{ConfigError, Percentile, SamplerConfig, SchedulerConfig};

fn of(number: f64) -> Percentile {
    Percentile::from_bits(number.to_bits())
}

#[test]
fn the_constants_are_the_patterns_they_are_said_to_be() {
    assert_eq!(ONE_HUNDRED_BITS, 100.0f64.to_bits());
    assert_eq!(NEGATIVE_ZERO_BITS, (-0.0f64).to_bits());
    assert_eq!(FRACTION_SPAN, 1u64 << 52);
}

#[test]
fn bits_go_in_and_come_out() {
    for bits in [0u64, 1, 0x3FF0_0000_0000_0000, ONE_HUNDRED_BITS, u64::MAX] {
        assert_eq!(Percentile::from_bits(bits).to_bits(), bits);
        assert_eq!(Percentile::from_bits(bits), Percentile { bits });
    }
}

#[test]
fn the_default_percentiles_are_1_10_50_90_99() {
    let numbers: Vec<f64> =
        default_percentiles().iter().map(|p| f64::from_bits(p.to_bits())).collect();
    assert_eq!(numbers, vec![1.0, 10.0, 50.0, 90.0, 99.0]);
}

#[test]
fn the_default_configuration_reports_the_default_percentiles() {
    let config = SchedulerConfig::default();
    assert_eq!(config.percentiles(), default_percentiles().as_slice());
    assert_eq!(
        config.percentiles(),
        &[of(1.0), of(10.0), of(50.0), of(90.0), of(99.0)]
    );
}

#[test]
fn the_bounds_are_in_range() {
    assert!(of(0.0).is_in_range());
    assert!(of(-0.0).is_in_range());
    assert!(of(100.0).is_in_range());
}

#[test]
fn numbers_between_the_bounds_are_in_range() {
    for number in [1.0, 10.0, 50.0, 90.0, 99.0, 99.9, 99.999, 0.001, 33.333333333333336] {
        assert!(of(number).is_in_range());
    }
    assert!(of(f64::MIN_POSITIVE).is_in_range());
    assert!(of(f64::from_bits(1)).is_in_range());
    assert!(of(f64::from_bits(ONE_HUNDRED_BITS - 1)).is_in_range());
}

#[test]
fn numbers_above_100_are_out_of_range() {
    assert!(!of(f64::from_bits(ONE_HUNDRED_BITS + 1)).is_in_range());
    for number in [100.00000000000001, 100.5, 101.0, 128.0, 1000.0, 1e300, f64::MAX] {
        assert!(!of(number).is_in_range());
    }
}

#[test]
fn numbers_below_zero_are_out_of_range() {
    assert!(!of(-f64::from_bits(1)).is_in_range());
    for number in [-f64::MIN_POSITIVE, -0.001, -1.0, -50.0, -100.0, -1e300, f64::MIN] {
        assert!(!of(number).is_in_range());
    }
}

#[test]
fn what_is_no_number_is_out_of_range() {
    assert!(!of(f64::INFINITY).is_in_range());
    assert!(!of(f64::NEG_INFINITY).is_in_range());
    assert!(!of(f64::NAN).is_in_range());
    assert!(!of(-f64::NAN).is_in_range());
    assert!(!Percentile::from_bits(0x7FF0_0000_0000_0001).is_in_range());
    assert!(!Percentile::from_bits(u64::MAX).is_in_range());
}

#[test]
fn the_range_agrees_with_the_comparison_of_doubles() {
    let mut bits: u64 = 0x9E37_79B9_7F4A_7C15;
    for _ in 0..20000 {
        bits ^= bits << 13;
        bits ^= bits >> 7;
        bits ^= bits << 17;
        let number = f64::from_bits(bits);
        let expected = 0.0 <= number && number <= 100.0;
        assert_eq!(Percentile::from_bits(bits).is_in_range(), expected);
        let near = f64::from_bits(ONE_HUNDRED_BITS.wrapping_add(bits % 4096).wrapping_sub(2048));
        assert_eq!(of(near).is_in_range(), 0.0 <= near && near <= 100.0);
    }
}

#[test]
fn a_list_in_range_is_copied() {
    let list = vec![of(25.0), of(0.0), of(100.0), of(25.0)];
    assert_eq!(validated_percentiles(&list), Ok(list.clone()));
}

#[test]
fn an_empty_list_is_turned_down() {
    assert_eq!(validated_percentiles(&Vec::new()), Err(ConfigError::EmptyPercentiles));
}

#[test]
fn a_list_with_one_percentile_out_of_range_is_turned_down() {
    let list = vec![of(25.0), of(100.5), of(50.0)];
    assert_eq!(validated_percentiles(&list), Err(ConfigError::InvalidPercentile));
    assert_eq!(validated_percentiles(&vec![of(-1.0)]), Err(ConfigError::InvalidPercentile));
    assert_eq!(validated_percentiles(&vec![of(f64::NAN)]), Err(ConfigError::InvalidPercentile));
}
