//! The root, exponential and cosine approximations.

use hosek_sky::approx::{fxcbrt, fxcos, fxexp, fxsqrt, E_FX, E_INV, HALF_PI};
use hosek_sky::fx::{SAT, SCALE};

#[test]
fn sqrt_of_perfect_squares_is_exact() {
    assert_eq!(fxsqrt(0), 0);
    assert_eq!(fxsqrt(SCALE), SCALE);
    // sqrt(4) == 2
    assert_eq!(fxsqrt(4_000_000), 2_000_000);
    // sqrt(0.25) == 0.5
    assert_eq!(fxsqrt(250_000), 500_000);
}

#[test]
fn sqrt_of_two_is_bracketed() {
    let r = fxsqrt(2_000_000);
    assert_eq!(r, 1_414_213);
}

#[test]
fn cbrt_of_perfect_cubes_is_exact() {
    assert_eq!(fxcbrt(0), 0);
    assert_eq!(fxcbrt(SCALE), SCALE);
    // cbrt(0.125) == 0.5
    assert_eq!(fxcbrt(125_000), 500_000);
}

#[test]
fn cbrt_rounds_down() {
    // cbrt(0.5) == 0.793700...
    assert_eq!(fxcbrt(500_000), 793_700);
}

#[test]
fn exp_of_zero_is_one() {
    assert_eq!(fxexp(0), SCALE);
}

#[test]
fn exp_of_unit_arguments_uses_the_euler_constants() {
    assert_eq!(fxexp(SCALE), E_FX);
    assert_eq!(fxexp(-SCALE), E_INV);
}

#[test]
fn exp_saturates_outside_its_window() {
    assert_eq!(fxexp(21_000_000), SAT);
    assert_eq!(fxexp(-21_000_000), 0);
    assert_eq!(fxexp(-900_000_000), 0);
}

#[test]
fn exp_is_close_to_the_real_exponential() {
    // e^0.5 = 1.648721...; the degree-7 series in micro-units.
    let r = fxexp(500_000);
    let expect = (0.5f64.exp() * 1e6) as i64;
    assert!((r - expect).abs() < 20, "fxexp(0.5) = {}", r);
}

#[test]
fn cos_of_zero_is_one() {
    assert_eq!(fxcos(0), SCALE);
}

#[test]
fn cos_near_the_horizon_is_near_zero() {
    let r = fxcos(HALF_PI);
    assert!((0..=200).contains(&r), "fxcos(pi/2) = {}", r);
}

#[test]
fn cos_tracks_the_real_cosine() {
    // cos(1) = 0.540302...
    let r = fxcos(SCALE);
    let expect = (1.0f64.cos() * 1e6) as i64;
    assert!((r - expect).abs() < 100, "fxcos(1) = {}", r);
}
