//! Exact behavior of the fixed-point scalar operations.

use fluidsense::fixed::{add, div, mul, neg, saturate, sqrt, sub, FX_MAX, FX_SCALE};

#[test]
fn mul_scales_exactly() {
    // 3.5 * 2.0 == 7.0
    assert_eq!(mul(3_500_000, 2_000_000), 7_000_000);
    // 1.0 * x is the identity
    assert_eq!(mul(FX_SCALE, 123_456), 123_456);
    assert_eq!(mul(FX_SCALE, -123_456), -123_456);
}

#[test]
fn mul_truncates_toward_zero() {
    // (1e-6)^2 underflows to zero
    assert_eq!(mul(1, 1), 0);
    assert_eq!(mul(-1, 1), 0);
    // 0.0015 * 0.0015 = 0.00000225 -> 0.000002
    assert_eq!(mul(1_500, 1_500), 2);
    assert_eq!(mul(-1_500, 1_500), -2);
}

#[test]
fn div_rounds_toward_zero_both_signs() {
    assert_eq!(div(1_000_000, 3_000_000), 333_333);
    assert_eq!(div(-1_000_000, 3_000_000), -333_333);
    assert_eq!(div(1_000_000, -3_000_000), -333_333);
    assert_eq!(div(-1_000_000, -3_000_000), 333_333);
}

#[test]
fn div_by_zero_is_total() {
    assert_eq!(div(5_000_000, 0), 0);
    assert_eq!(div(0, 0), 0);
}

#[test]
fn add_and_sub_saturate() {
    assert_eq!(add(FX_MAX, FX_MAX), FX_MAX);
    assert_eq!(sub(-FX_MAX, FX_MAX), -FX_MAX);
    assert_eq!(add(1_000_000, 2_000_000), 3_000_000);
    assert_eq!(sub(1_000_000, 2_000_000), -1_000_000);
}

#[test]
fn neg_is_exact_on_the_symmetric_range() {
    assert_eq!(neg(5), -5);
    assert_eq!(neg(-FX_MAX), FX_MAX);
    // the one unrepresentable input saturates instead of overflowing
    assert_eq!(neg(i64::MIN), FX_MAX);
}

#[test]
fn sqrt_matches_floor_of_real_root() {
    assert_eq!(sqrt(4_000_000), 2_000_000);
    assert_eq!(sqrt(2_000_000), 1_414_213);
    assert_eq!(sqrt(1_000_000), 1_000_000);
    assert_eq!(sqrt(0), 0);
    assert_eq!(sqrt(-3_000_000), 0);
}

#[test]
fn saturate_clamps_wide_values() {
    assert_eq!(saturate(1i128 << 100), FX_MAX);
    assert_eq!(saturate(-(1i128 << 100)), -FX_MAX);
    assert_eq!(saturate(42), 42);
}
