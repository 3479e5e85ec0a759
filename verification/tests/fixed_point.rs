use orrery::fixed::{clamp_to, div_toward_zero, fdiv, fmul, fquot, isqrt, saturate, ONE};

#[test]
fn one_is_a_hundred_thousand() {
    assert_eq!(ONE, 100_000);
}

#[test]
fn saturate_keeps_what_fits() {
    assert_eq!(saturate(0), 0);
    assert_eq!(saturate(-17), -17);
    assert_eq!(saturate(i32::MAX as i128), i32::MAX);
    assert_eq!(saturate(i32::MIN as i128), i32::MIN);
}

#[test]
fn saturate_stops_at_the_bounds() {
    assert_eq!(saturate(i32::MAX as i128 + 1), i32::MAX);
    assert_eq!(saturate(i32::MIN as i128 - 1), i32::MIN);
    assert_eq!(saturate(i128::MAX), i32::MAX);
    assert_eq!(saturate(i128::MIN), i32::MIN);
}

#[test]
fn clamp_to_limits_both_ways() {
    assert_eq!(clamp_to(5, 10, 20), 10);
    assert_eq!(clamp_to(25, 10, 20), 20);
    assert_eq!(clamp_to(15, 10, 20), 15);
    assert_eq!(clamp_to(10, 10, 10), 10);
}

#[test]
fn division_rounds_toward_zero() {
    assert_eq!(div_toward_zero(7, 2), 3);
    assert_eq!(div_toward_zero(-7, 2), -3);
    assert_eq!(div_toward_zero(7, -2), -3);
    assert_eq!(div_toward_zero(-7, -2), 3);
    assert_eq!(div_toward_zero(0, 5), 0);
    assert_eq!(div_toward_zero(6, 3), 2);
}

#[test]
fn fmul_multiplies_fixed_point() {
    assert_eq!(fmul(150_000, 200_000), 300_000);
    assert_eq!(fmul(ONE, 12_345), 12_345);
    assert_eq!(fmul(0, 12_345), 0);
    assert_eq!(fmul(150_000, 66_666), 99_999);
    assert_eq!(fmul(-150_000, 150_000), -225_000);
}

#[test]
fn fmul_rounds_toward_zero() {
    assert_eq!(fmul(-1, 50_000), 0);
    assert_eq!(fmul(1, 50_000), 0);
    assert_eq!(fmul(3, 50_000), 1);
    assert_eq!(fmul(-3, 50_000), -1);
}

#[test]
fn fmul_saturates() {
    assert_eq!(fmul(i32::MAX, i32::MAX), i32::MAX);
    assert_eq!(fmul(i32::MIN, i32::MAX), i32::MIN);
    assert_eq!(fmul(i32::MIN, i32::MIN), i32::MAX);
}

#[test]
fn fdiv_divides_fixed_point() {
    assert_eq!(fdiv(ONE, 300_000), Some(33_333));
    assert_eq!(fdiv(-ONE, 300_000), Some(-33_333));
    assert_eq!(fdiv(ONE, -300_000), Some(-33_333));
    assert_eq!(fdiv(300_000, 150_000), Some(200_000));
    assert_eq!(fdiv(0, 7), Some(0));
}

#[test]
fn fdiv_by_zero_is_none() {
    assert_eq!(fdiv(ONE, 0), None);
    assert_eq!(fdiv(0, 0), None);
}

#[test]
fn fdiv_saturates() {
    assert_eq!(fdiv(i32::MAX, 1), Some(i32::MAX));
    assert_eq!(fdiv(i32::MIN, 1), Some(i32::MIN));
}

#[test]
fn fquot_saturates_on_zero_divisor() {
    assert_eq!(fquot(5, 0), i32::MAX);
    assert_eq!(fquot(-5, 0), i32::MIN);
    assert_eq!(fquot(0, 0), 0);
    assert_eq!(fquot(ONE, 200_000), 50_000);
}

#[test]
fn isqrt_of_small_numbers() {
    assert_eq!(isqrt(0), 0);
    assert_eq!(isqrt(1), 1);
    assert_eq!(isqrt(2), 1);
    assert_eq!(isqrt(3), 1);
    assert_eq!(isqrt(4), 2);
    assert_eq!(isqrt(24), 4);
    assert_eq!(isqrt(25), 5);
    assert_eq!(isqrt(26), 5);
}

#[test]
fn isqrt_of_large_numbers() {
    assert_eq!(isqrt(1_000_000_000_000), 1_000_000);
    assert_eq!(isqrt(999_999_999_999), 999_999);
    assert_eq!(isqrt(u128::MAX), u64::MAX);
    assert_eq!(isqrt(55_340_232_195_358_851_075), 7_439_101_571);
}

#[test]
fn isqrt_brackets_its_argument() {
    let samples: [u128; 6] = [5, 99, 12_345_678_901_234_567_890, 1 << 100, (1 << 64) - 1, 1 << 64];
    for n in samples {
        let r = isqrt(n) as u128;
        assert!(r * r <= n);
        assert!(r == u64::MAX as u128 || (r + 1) * (r + 1) > n);
    }
}
