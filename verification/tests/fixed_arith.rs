use car_design::fixed::{
    absolute, cosine, minus, narrow, negate, num, over, plus, raw_of, root, times, wide_over,
    wide_plus, wide_times, Fixed, MAX_RAW, SCALE,
};

fn fx(raw: i128) -> Fixed {
    Fixed { raw }
}

#[test]
fn product_rounds_toward_zero() {
    assert_eq!(times(num(3), num(5_000_000_000)), num(1));
    assert_eq!(times(num(-3), num(5_000_000_000)), num(-1));
    assert_eq!(times(num(3), num(-5_000_000_000)), num(-1));
    assert_eq!(times(num(-3), num(-5_000_000_000)), num(1));
    assert_eq!(times(num(1), num(9_999_999_999)), num(0));
    // 2.5 * 4.2
    assert_eq!(times(num(25_000_000_000), num(42_000_000_000)), num(105_000_000_000));
}

#[test]
fn product_is_undefined_out_of_range() {
    // 10^9 * 10^9 is the largest number; a unit more is too much
    let big = Fixed::from_int(1_000_000_000);
    assert_eq!(times(Some(big), Some(big)), num(MAX_RAW));
    assert_eq!(times(Some(big), num(big.raw + 1)), None);
    assert_eq!(times(num(MAX_RAW), num(SCALE)), num(MAX_RAW));
    assert_eq!(times(num(MAX_RAW), num(SCALE + 1)), None);
    assert_eq!(times(num(MAX_RAW + 1), num(0)), None);
    assert_eq!(times(num(-MAX_RAW), num(-MAX_RAW)), None);
    assert_eq!(times(None, num(1)), None);
    assert_eq!(times(num(1), None), None);
}

#[test]
fn quotient_rounds_toward_zero() {
    let one = Fixed::from_int(1);
    let three = Fixed::from_int(3);
    assert_eq!(over(Some(one), Some(three)), num(3_333_333_333));
    assert_eq!(over(negate(Some(one)), Some(three)), num(-3_333_333_333));
    assert_eq!(over(Some(one), negate(Some(three))), num(-3_333_333_333));
    assert_eq!(over(num(0), num(-7)), num(0));
    assert_eq!(over(Some(one), num(0)), None);
    assert_eq!(over(num(MAX_RAW), num(1)), None);
    assert_eq!(over(num(MAX_RAW), num(SCALE)), num(MAX_RAW));
    assert_eq!(over(num(MAX_RAW), num(MAX_RAW)), num(SCALE));
    assert_eq!(over(None, Some(one)), None);
}

#[test]
fn sums_and_differences() {
    assert_eq!(plus(num(7), num(-9)), num(-2));
    assert_eq!(minus(num(7), num(-9)), num(16));
    assert_eq!(plus(num(MAX_RAW), num(1)), None);
    assert_eq!(minus(num(-MAX_RAW), num(1)), None);
    assert_eq!(plus(num(MAX_RAW), num(-1)), num(MAX_RAW - 1));
    assert_eq!(plus(num(i128::MAX), num(i128::MAX)), None);
    assert_eq!(minus(num(i128::MIN), num(1)), None);
    assert_eq!(plus(Some(Fixed::from_int(2)), None), None);
    assert_eq!(negate(num(5)), num(-5));
    assert_eq!(negate(num(i128::MIN)), None);
    assert_eq!(absolute(num(-5)), num(5));
    assert_eq!(absolute(num(5)), num(5));
    assert_eq!(absolute(None), None);
}

#[test]
fn root_rounds_down() {
    assert_eq!(root(Some(Fixed::from_int(2))), num(14_142_135_623));
    assert_eq!(root(Some(Fixed::from_int(4))), num(20_000_000_000));
    assert_eq!(root(num(0)), num(0));
    assert_eq!(root(num(1)), num(100_000));
    assert_eq!(root(num(-1)), None);
    assert_eq!(root(num(MAX_RAW)), num(10_000_000_000_000_000_000));
    assert_eq!(root(num(MAX_RAW + 1)), None);
    assert_eq!(root(None), None);
}

#[test]
fn cosine_of_the_known_angles() {
    assert_eq!(cosine(num(0)), num(10_000_000_000));
    assert_eq!(cosine(num(10_000_000_000)), num(5_403_023_059));
    assert_eq!(cosine(num(-7_000_000_000)), num(7_648_421_873));
    assert_eq!(cosine(num(3_926_990_817)), num(9_238_795_326));
    assert_eq!(cosine(num(15_707_963_268)), num(0));
    assert_eq!(cosine(num(31_415_926_536)), num(-10_000_000_000));
    assert_eq!(cosine(num(62_831_853_072)), num(10_000_000_000));
    assert_eq!(cosine(num(50_000_000_000)), num(2_836_621_854));
    assert_eq!(cosine(num(1_000_000_012_345)), num(8_623_194_973));
    assert_eq!(cosine(num(MAX_RAW + 1)), None);
    assert_eq!(cosine(None), None);
}

#[test]
fn cosine_stays_close_to_the_real_cosine() {
    let mut x: i128 = -70_000_000_000;
    while x <= 70_000_000_000 {
        let c = cosine(num(x)).unwrap().raw;
        assert!((-SCALE..=SCALE).contains(&c));
        let real = (x as f64 / 1e10).cos();
        assert!((c as f64 / 1e10 - real).abs() < 2e-9);
        x += 123_456_789;
    }
}

#[test]
fn whole_numbers_and_millionths() {
    assert_eq!(Fixed::from_int(-3), fx(-30_000_000_000));
    assert_eq!(Fixed::from_micro(228_600), fx(2_286_000_000));
    assert!(Fixed::from_int(1_000_000_000_000_000_000).is_in_range());
    assert!(!Fixed::from_int(1_000_000_000_000_000_001).is_in_range());
    assert!(fx(-MAX_RAW).is_in_range());
    assert!(!fx(-MAX_RAW - 1).is_in_range());
}

#[test]
fn wide_counts_are_exact_or_undefined() {
    assert_eq!(wide_times(Some(3), Some(-5)), Some(-15));
    assert_eq!(wide_times(Some(i128::MAX), Some(2)), None);
    assert_eq!(wide_times(Some(i128::MAX), Some(-1)), Some(-i128::MAX));
    assert_eq!(wide_times(Some(i128::MIN), Some(1)), None);
    assert_eq!(wide_plus(Some(i128::MAX), Some(1)), None);
    assert_eq!(wide_plus(Some(-i128::MAX), Some(-1)), None);
    assert_eq!(wide_plus(Some(7), None), None);
    assert_eq!(wide_over(Some(-7), Some(2)), Some(-3));
    assert_eq!(wide_over(Some(7), Some(-2)), Some(-3));
    assert_eq!(wide_over(Some(7), Some(0)), None);
    assert_eq!(wide_over(Some(i128::MIN), Some(1)), None);
    assert_eq!(wide_over(Some(i128::MIN), Some(2)), Some(i128::MIN / 2));
    assert_eq!(wide_over(Some(5), Some(i128::MIN)), Some(0));
    assert_eq!(raw_of(num(MAX_RAW)), Some(MAX_RAW));
    assert_eq!(raw_of(num(MAX_RAW + 1)), None);
    assert_eq!(narrow(Some(-MAX_RAW)), num(-MAX_RAW));
    assert_eq!(narrow(Some(-MAX_RAW - 1)), None);
}
