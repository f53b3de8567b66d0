//! The saturating fixed-point scalar operations.

use hosek_sky::fx::{clamp, fadd, fdiv, fmul, fsub, idivp, min, SAT, SCALE};

#[test]
fn clamp_returns_value_inside_range() {
    assert_eq!(clamp(5, 1, 10), 5);
}

#[test]
fn clamp_returns_bounds_outside_range() {
    assert_eq!(clamp(0, 1, 10), 1);
    assert_eq!(clamp(11, 1, 10), 10);
    assert_eq!(clamp(-3, -1, 1), -1);
}

#[test]
fn min_takes_the_smaller_value() {
    assert_eq!(min(4, 10), 4);
    assert_eq!(min(11, 10), 10);
    assert_eq!(min(-5, 0), -5);
}

#[test]
fn fadd_is_exact_inside_the_range() {
    assert_eq!(fadd(1_500_000, 250_000), 1_750_000);
    assert_eq!(fadd(-1_500_000, 250_000), -1_250_000);
}

#[test]
fn fadd_saturates_at_the_bound() {
    assert_eq!(fadd(SAT, SAT), SAT);
    assert_eq!(fadd(-SAT, -SAT), -SAT);
}

#[test]
fn fsub_is_exact_inside_the_range() {
    assert_eq!(fsub(1_500_000, 250_000), 1_250_000);
    assert_eq!(fsub(-SAT, SAT), -SAT);
}

#[test]
fn fmul_scales_by_one_exactly() {
    assert_eq!(fmul(123_456, SCALE), 123_456);
    assert_eq!(fmul(SCALE, -123_456), -123_456);
}

#[test]
fn fmul_multiplies_halves() {
    // 0.5 * 0.5 == 0.25
    assert_eq!(fmul(500_000, 500_000), 250_000);
    // -1.5 * 2 == -3
    assert_eq!(fmul(-1_500_000, 2_000_000), -3_000_000);
}

#[test]
fn fmul_truncates_toward_zero() {
    // (-1e-6) * 0.999999 rounds to zero, not to -1e-6.
    assert_eq!(fmul(-1, 999_999), 0);
    assert_eq!(fmul(1, 999_999), 0);
}

#[test]
fn fmul_saturates_large_products() {
    assert_eq!(fmul(SAT, SAT), SAT);
    assert_eq!(fmul(-SAT, SAT), -SAT);
}

#[test]
fn fdiv_divides_exactly() {
    // 1 / 2 == 0.5
    assert_eq!(fdiv(1_000_000, 2_000_000), 500_000);
    // -3 / 2 == -1.5
    assert_eq!(fdiv(-3_000_000, 2_000_000), -1_500_000);
}

#[test]
fn fdiv_by_a_micro_unit_rescales() {
    // Dividing by the smallest positive scalar multiplies by a million.
    assert_eq!(fdiv(500_000, 1), 500_000_000_000);
}

#[test]
fn idivp_divides_by_a_plain_count() {
    assert_eq!(idivp(1_000_000, 3), 333_333);
    assert_eq!(idivp(-1_000_000, 3), -333_333);
}
