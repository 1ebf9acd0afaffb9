use raytracer::fixed::{Fixed, SCALE};
use raytracer::scalar::Scalar;

fn fx(raw: i64) -> Fixed {
    Fixed::new(raw)
}

#[test]
fn whole_numbers_are_scaled() {
    assert_eq!(SCALE, 1_000_000);
    assert_eq!(Fixed::from_usize(0), fx(0));
    assert_eq!(Fixed::from_usize(3), fx(3_000_000));
    assert_eq!(Fixed::from_usize(255), fx(255_000_000));
    assert_eq!(Fixed::from_usize(usize::MAX), fx(i64::MAX));
}

#[test]
fn fractions_drop_what_lies_beyond_the_sixth_place() {
    assert_eq!(Fixed::fraction(2, 10), fx(200_000));
    assert_eq!(Fixed::fraction(7, 10), fx(700_000));
    assert_eq!(Fixed::fraction(9, 10), fx(900_000));
    assert_eq!(Fixed::fraction(1, 1000), fx(1_000));
    assert_eq!(Fixed::fraction(1, 3), fx(333_333));
    assert_eq!(Fixed::fraction(2, 3), fx(666_666));
    assert_eq!(Fixed::fraction(0, 7), fx(0));
    assert_eq!(Fixed::fraction(u32::MAX, 1), fx(4_294_967_295_000_000));
    assert_eq!(Fixed::fraction(0xff_ffff, 0x100_0000), fx(999_999));
    assert_eq!(Fixed::fraction(0x80_0000, 0x100_0000), fx(500_000));
    assert_eq!(Fixed::fraction(0, 0), fx(0));
    assert_eq!(Fixed::fraction(1, 0), fx(i64::MAX));
    assert_eq!(Fixed::fraction(u32::MAX, 0), fx(i64::MAX));
    assert_eq!(Fixed::fraction(u32::MAX, u32::MAX), fx(1_000_000));
    assert_eq!(Fixed::fraction(1, u32::MAX), fx(0));
}

#[test]
fn whole_part_is_cut_to_the_range_of_u32() {
    assert_eq!(fx(255_900_000).to_u32(), 255);
    assert_eq!(fx(999_999).to_u32(), 0);
    assert_eq!(fx(1_000_000).to_u32(), 1);
    assert_eq!(fx(0).to_u32(), 0);
    assert_eq!(fx(-3_000_000).to_u32(), 0);
    assert_eq!(fx(4_294_967_295_999_999).to_u32(), u32::MAX);
    assert_eq!(fx(4_294_967_296_000_000).to_u32(), u32::MAX);
    assert_eq!(fx(i64::MAX).to_u32(), u32::MAX);
    assert_eq!(fx(i64::MIN).to_u32(), 0);
}

#[test]
fn sums_and_differences_saturate() {
    assert_eq!(fx(1_500_000).add(fx(2_250_000)), fx(3_750_000));
    assert_eq!(fx(1_500_000).sub(fx(2_250_000)), fx(-750_000));
    assert_eq!(fx(i64::MAX).add(fx(1)), fx(i64::MAX));
    assert_eq!(fx(i64::MIN).add(fx(-1)), fx(i64::MIN));
    assert_eq!(fx(i64::MIN).sub(fx(1)), fx(i64::MIN));
    assert_eq!(fx(i64::MAX).sub(fx(-1)), fx(i64::MAX));
    assert_eq!(fx(i64::MAX).add(fx(i64::MIN)), fx(-1));
    assert_eq!(fx(5).neg(), fx(-5));
    assert_eq!(fx(i64::MIN).neg(), fx(i64::MAX));
    assert_eq!(fx(i64::MAX).neg(), fx(i64::MIN + 1));
}

#[test]
fn products_round_towards_zero() {
    assert_eq!(fx(1_500_000).mul(fx(2_500_000)), fx(3_750_000));
    assert_eq!(fx(-1_500_000).mul(fx(2_500_000)), fx(-3_750_000));
    assert_eq!(fx(-1_500_000).mul(fx(-2_500_000)), fx(3_750_000));
    assert_eq!(fx(1).mul(fx(500_000)), fx(0));
    assert_eq!(fx(-1).mul(fx(500_000)), fx(0));
    assert_eq!(fx(3).mul(fx(500_000)), fx(1));
    assert_eq!(fx(-3).mul(fx(500_000)), fx(-1));
    assert_eq!(fx(333_333).mul(fx(3_000_000)), fx(999_999));
    assert_eq!(fx(i64::MAX).mul(fx(2_000_000)), fx(i64::MAX));
    assert_eq!(fx(i64::MAX).mul(fx(-2_000_000)), fx(i64::MIN));
    assert_eq!(fx(i64::MIN).mul(fx(i64::MIN)), fx(i64::MAX));
    assert_eq!(fx(i64::MAX).mul(fx(1_000_000)), fx(i64::MAX));
    assert_eq!(fx(i64::MIN).mul(fx(1_000_000)), fx(i64::MIN));
}

#[test]
fn quotients_round_towards_zero() {
    assert_eq!(fx(1_000_000).div(fx(3_000_000)), fx(333_333));
    assert_eq!(fx(-1_000_000).div(fx(3_000_000)), fx(-333_333));
    assert_eq!(fx(1_000_000).div(fx(-3_000_000)), fx(-333_333));
    assert_eq!(fx(-1_000_000).div(fx(-3_000_000)), fx(333_333));
    assert_eq!(fx(7_500_000).div(fx(2_500_000)), fx(3_000_000));
    assert_eq!(fx(1_000_000).div(fx(1_500_000)), fx(666_666));
    assert_eq!(fx(1).div(fx(2_000_000)), fx(0));
    assert_eq!(fx(i64::MAX).div(fx(500_000)), fx(i64::MAX));
    assert_eq!(fx(i64::MIN).div(fx(500_000)), fx(i64::MIN));
    assert_eq!(fx(i64::MIN).div(fx(-1_000_000)), fx(i64::MAX));
}

#[test]
fn division_by_zero_saturates() {
    assert_eq!(fx(1).div(fx(0)), fx(i64::MAX));
    assert_eq!(fx(-1).div(fx(0)), fx(i64::MIN));
    assert_eq!(fx(0).div(fx(0)), fx(0));
}

#[test]
fn roots_are_whole_parts_of_roots() {
    assert_eq!(fx(4_000_000).sqrt(), fx(2_000_000));
    assert_eq!(fx(2_000_000).sqrt(), fx(1_414_213));
    assert_eq!(fx(250_000).sqrt(), fx(500_000));
    assert_eq!(fx(1).sqrt(), fx(1_000));
    assert_eq!(fx(0).sqrt(), fx(0));
    assert_eq!(fx(-4_000_000).sqrt(), fx(0));
    assert_eq!(fx(14_000_000).sqrt(), fx(3_741_657));
    assert_eq!(fx(i64::MAX).sqrt(), fx(3_037_000_499_976));
    let root = fx(i64::MAX).sqrt().raw as i128;
    let square = i64::MAX as i128 * SCALE as i128;
    assert!(root * root <= square && square < (root + 1) * (root + 1));
}

#[test]
fn order_is_that_of_the_raw_values() {
    assert!(fx(-1).lt(fx(0)));
    assert!(!fx(0).lt(fx(0)));
    assert!(!fx(1).lt(fx(0)));
    assert!(fx(0).le(fx(0)));
    assert!(fx(-1).le(fx(0)));
    assert!(!fx(1).le(fx(0)));
    assert_eq!(fx(3).max(fx(5)), fx(5));
    assert_eq!(fx(5).max(fx(3)), fx(5));
    assert_eq!(fx(3).min(fx(5)), fx(3));
    assert_eq!(fx(5).min(fx(3)), fx(3));
    assert_eq!(fx(i64::MIN).max(fx(i64::MAX)), fx(i64::MAX));
    assert_eq!(fx(i64::MIN).min(fx(i64::MAX)), fx(i64::MIN));
}

#[test]
fn order_laws_hold_on_samples() {
    let samples = [i64::MIN, -2_000_000, -1, 0, 1, 999_999, 1_000_000, i64::MAX];
    for &a in samples.iter() {
        assert!(!fx(a).lt(fx(a)));
        for &b in samples.iter() {
            assert_eq!(fx(a).le(fx(b)), !fx(b).lt(fx(a)));
            assert_eq!(fx(a).max(fx(b)), if fx(a).lt(fx(b)) { fx(b) } else { fx(a) });
            assert_eq!(fx(a).min(fx(b)), if fx(b).lt(fx(a)) { fx(b) } else { fx(a) });
            for &c in samples.iter() {
                if fx(a).lt(fx(b)) && fx(b).lt(fx(c)) {
                    assert!(fx(a).lt(fx(c)));
                }
                if !fx(a).lt(fx(b)) && !fx(b).lt(fx(c)) {
                    assert!(!fx(a).lt(fx(c)));
                }
            }
        }
    }
    assert!(!Fixed::from_usize(0).lt(Fixed::from_usize(0)));
    assert!(!Fixed::from_usize(usize::MAX).lt(Fixed::from_usize(0)));
}

#[test]
fn sine_of_known_angles() {
    assert_eq!(fx(0).sin(), fx(0));
    assert_eq!(fx(1_000).sin(), fx(1_000));
    assert_eq!(fx(523_599).sin(), fx(500_000));
    assert_eq!(fx(1_000_000).sin(), fx(841_472));
    assert_eq!(fx(-1_000_000).sin(), fx(-841_472));
    assert_eq!(fx(1_570_796).sin(), fx(1_000_000));
    assert_eq!(fx(3_141_593).sin(), fx(0));
    assert_eq!(fx(4_000_000).sin(), fx(-756_803));
    assert_eq!(fx(6_000_000).sin(), fx(-279_415));
    assert_eq!(fx(100_000_000).sin(), fx(-506_361));
}

#[test]
fn cosine_of_known_angles() {
    assert_eq!(fx(0).cos(), fx(1_000_000));
    assert_eq!(fx(1_000_000).cos(), fx(540_302));
    assert_eq!(fx(1_570_796).cos(), fx(0));
    assert_eq!(fx(2_000_000).cos(), fx(-416_147));
    assert_eq!(fx(3_141_593).cos(), fx(-1_000_000));
    assert_eq!(fx(4_000_000).cos(), fx(-653_643));
    assert_eq!(fx(5_500_000).cos(), fx(708_670));
    assert_eq!(fx(-3_000_000).cos(), fx(-989_993));
}

#[test]
fn sine_and_cosine_stay_between_minus_one_and_one() {
    let mut angle: i64 = -20_000_000;
    while angle <= 20_000_000 {
        let s = fx(angle).sin().raw;
        let c = fx(angle).cos().raw;
        assert!(-SCALE <= s && s <= SCALE);
        assert!(-SCALE <= c && c <= SCALE);
        let exact = (angle as f64 / 1e6).sin();
        assert!((s as f64 / 1e6 - exact).abs() < 2e-5);
        let exact = (angle as f64 / 1e6).cos();
        assert!((c as f64 / 1e6 - exact).abs() < 2e-5);
        angle += 12_345;
    }
    for &angle in [i64::MIN, i64::MIN + 1, i64::MAX].iter() {
        let s = fx(angle).sin().raw;
        let c = fx(angle).cos().raw;
        assert!(-SCALE <= s && s <= SCALE);
        assert!(-SCALE <= c && c <= SCALE);
    }
}

#[test]
fn tangent_is_sine_over_cosine() {
    assert_eq!(fx(0).tan(), fx(0));
    assert_eq!(fx(785_398).tan(), fx(1_000_000));
    assert_eq!(fx(523_599).tan(), fx(577_350));
    assert_eq!(fx(1_570_796).tan(), fx(i64::MAX));
    assert_eq!(fx(-1_570_796).tan(), fx(i64::MIN));
}

#[test]
fn powers_of_positive_bases() {
    assert_eq!(fx(2_000_000).powf(fx(10_000_000)), fx(1_024_000_000));
    assert_eq!(fx(4_000_000).powf(fx(500_000)), fx(2_000_000));
    assert_eq!(fx(2_000_000).powf(fx(500_000)), fx(1_414_213));
    assert_eq!(fx(2_000_000).powf(fx(-1_000_000)), fx(500_000));
    assert_eq!(fx(500_000).powf(fx(3_000_000)), fx(125_000));
    assert_eq!(fx(900_000).powf(fx(50_000_000)), fx(5_153));
    assert_eq!(fx(3_000_000).powf(fx(2_500_000)), fx(15_588_450));
    assert_eq!(fx(700_000).powf(fx(300_000)), fx(898_513));
    assert_eq!(fx(10_000_000).powf(fx(1_750_000)), fx(56_234_107));
    assert_eq!(fx(1_000_000).powf(fx(1_425_000_000)), fx(1_000_000));
    assert_eq!(fx(990_000).powf(fx(1_425_000_000)), fx(0));
    assert_eq!(fx(7_000_000).powf(fx(1_000_000)), fx(7_000_000));
}

#[test]
fn powers_at_the_edges() {
    assert_eq!(fx(5_000_000).powf(fx(0)), fx(1_000_000));
    assert_eq!(fx(0).powf(fx(0)), fx(1_000_000));
    assert_eq!(fx(-5_000_000).powf(fx(0)), fx(1_000_000));
    assert_eq!(fx(0).powf(fx(5_000_000)), fx(0));
    assert_eq!(fx(0).powf(fx(-5_000_000)), fx(0));
    assert_eq!(fx(-2_000_000).powf(fx(2_000_000)), fx(0));
    assert_eq!(fx(10_000_000).powf(fx(100_000_000)), fx(i64::MAX));
    assert_eq!(fx(10_000_000).powf(fx(-100_000_000)), fx(0));
    assert_eq!(fx(2_000_000).powf(fx(i64::MAX)), fx(i64::MAX));
    assert_eq!(fx(2_000_000).powf(fx(i64::MIN)), fx(0));
}
