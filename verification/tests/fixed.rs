use orbital_debris::fixed::{clamp, fixed_mul, saturate, ONE};

#[test]
fn one_is_a_million_steps() {
    assert_eq!(ONE, 1_000_000);
}

#[test]
fn fixed_mul_multiplies_fractions() {
    // 0.5 * 0.5 = 0.25
    assert_eq!(fixed_mul(500_000, 500_000), 250_000);
    // 100 * 0.005 = 0.5
    assert_eq!(fixed_mul(100_000_000, 5_000), 500_000);
    // 4 * 0.85 = 3.4
    assert_eq!(fixed_mul(4_000_000, 850_000), 3_400_000);
}

#[test]
fn fixed_mul_by_one_and_zero() {
    assert_eq!(fixed_mul(ONE, 123_456_789), 123_456_789);
    assert_eq!(fixed_mul(-987_654_321, ONE), -987_654_321);
    assert_eq!(fixed_mul(0, 55), 0);
    assert_eq!(fixed_mul(55, 0), 0);
}

#[test]
fn fixed_mul_rounds_toward_zero() {
    // 0.000001 * 0.999999 is less than one step
    assert_eq!(fixed_mul(1, 999_999), 0);
    assert_eq!(fixed_mul(-1, 999_999), 0);
    // 1.5 steps
    assert_eq!(fixed_mul(3, 500_000), 1);
    assert_eq!(fixed_mul(-3, 500_000), -1);
    assert_eq!(fixed_mul(3, -500_000), -1);
    assert_eq!(fixed_mul(-3, -500_000), 1);
}

#[test]
fn fixed_mul_holds_the_largest_products() {
    let max = i64::MAX as i128;
    let min = i64::MIN as i128;
    assert_eq!(fixed_mul(i64::MAX, i64::MAX), max * max / 1_000_000);
    assert_eq!(fixed_mul(i64::MIN, i64::MIN), min * min / 1_000_000);
    assert_eq!(fixed_mul(i64::MIN, i64::MAX), min * max / 1_000_000);
}

#[test]
fn clamp_limits_to_the_interval() {
    assert_eq!(clamp(5, 10, 20), 10);
    assert_eq!(clamp(25, 10, 20), 20);
    assert_eq!(clamp(15, 10, 20), 15);
    assert_eq!(clamp(10, 10, 20), 10);
    assert_eq!(clamp(20, 10, 20), 20);
    assert_eq!(clamp(7, 3, 3), 3);
    assert_eq!(clamp(i128::MAX, -1, 1), 1);
    assert_eq!(clamp(i128::MIN, -1, 1), -1);
}

#[test]
fn saturate_limits_to_i64() {
    assert_eq!(saturate(0), 0);
    assert_eq!(saturate(i64::MAX as i128), i64::MAX);
    assert_eq!(saturate(i64::MAX as i128 + 1), i64::MAX);
    assert_eq!(saturate(i64::MIN as i128), i64::MIN);
    assert_eq!(saturate(i64::MIN as i128 - 1), i64::MIN);
    assert_eq!(saturate(-42), -42);
}
