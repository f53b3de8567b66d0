//! The quintic spline and the bilinear dataset blend.

use hosek_sky::blend::evaluate;
use hosek_sky::approx::{fxcbrt, HALF_PI};
use hosek_sky::fx::{fadd, fdiv, fmul, fsub, SCALE};
use hosek_sky::spline::evaluate_spline;

/// A coefficient table for one channel: two albedo halves, ten turbidity
/// bands, six control points, nine slots, filled from the given function of
/// the flat index.
fn co_table(f: impl Fn(usize) -> i64) -> Vec<i64> {
    (0..1080).map(f).collect()
}

/// The flat index of slot `slot`, control point `cp`, band `band`, albedo
/// half `half` in a stride-9 table.
fn co_index(half: usize, band: usize, cp: usize, slot: usize) -> usize {
    slot + 540 * half + 54 * (band - 1) + 9 * cp
}

#[test]
fn spline_at_zero_returns_the_first_control_point() {
    let ds: Vec<i64> = vec![700_000, -1, -2, -3, -4, 123_456];
    assert_eq!(evaluate_spline(&ds, 0, 1, 0), 700_000);
}

#[test]
fn spline_at_one_returns_the_last_control_point() {
    let ds: Vec<i64> = vec![700_000, -1, -2, -3, -4, 123_456];
    assert_eq!(evaluate_spline(&ds, 0, 1, SCALE), 123_456);
}

#[test]
fn spline_endpoints_respect_start_and_stride() {
    // Two interleaved slots: the stride picks every other value.
    let ds: Vec<i64> = vec![10, 20, 11, 21, 12, 22, 13, 23, 14, 24, 15, 25];
    assert_eq!(evaluate_spline(&ds, 1, 2, 0), 20);
    assert_eq!(evaluate_spline(&ds, 1, 2, SCALE), 25);
    assert_eq!(evaluate_spline(&ds, 0, 2, 0), 10);
}

#[test]
fn spline_midpoint_of_a_constant_curve() {
    // All control points 2.0: at t = 0.5 every product is exact and the
    // Bernstein weights sum to one, so the value is exactly 2.0.
    let ds: Vec<i64> = vec![2_000_000; 6];
    assert_eq!(evaluate_spline(&ds, 0, 1, 500_000), 2_000_000);
}

#[test]
fn blend_at_a_band_turbidity_reads_only_that_band() {
    // Distinct values per table cell; at turbidity exactly 3.0 and albedo
    // zero, the blend must equal the plain spline over the albedo-zero
    // band-3 control points, with no contribution from band 4.
    let ds = co_table(|i| (i as i64) * 7 - 1000);
    let sun_theta = 600_000;
    let slot = 2usize;
    let got = evaluate(&ds, slot, 9, 3_000_000, 0, sun_theta);
    // The elevation parameter the blend derives internally.
    let ek = fxcbrt(fsub(SCALE, fdiv(sun_theta, HALF_PI)));
    let expect = evaluate_spline(&ds, co_index(0, 3, 0, slot), 9, ek);
    assert_eq!(got, expect);
}

#[test]
fn blend_at_albedo_zero_reads_only_the_low_albedo_half() {
    let ds = co_table(|i| if i < 540 { 400_000 + i as i64 } else { -900_000_000 });
    let sun_theta = 900_000;
    let turbidity = 4_500_000;
    let slot = 5usize;
    let got = evaluate(&ds, slot, 9, turbidity, 0, sun_theta);
    let ek = fxcbrt(fsub(SCALE, fdiv(sun_theta, HALF_PI)));
    // The turbidity mix of the two low-albedo corners: bands 4 and 5 at
    // fraction 0.5.
    let s4 = evaluate_spline(&ds, co_index(0, 4, 0, slot), 9, ek);
    let s5 = evaluate_spline(&ds, co_index(0, 5, 0, slot), 9, ek);
    let expect = fadd(fmul(s4, 500_000), fmul(s5, 500_000));
    assert_eq!(got, expect);
}

#[test]
fn blend_at_albedo_one_reads_only_the_high_albedo_half() {
    let ds = co_table(|i| if i >= 540 { 400_000 - i as i64 } else { 800_000_000 });
    let sun_theta = 300_000;
    let turbidity = 7_250_000;
    let slot = 0usize;
    let got = evaluate(&ds, slot, 9, turbidity, SCALE, sun_theta);
    let ek = fxcbrt(fsub(SCALE, fdiv(sun_theta, HALF_PI)));
    let s7 = evaluate_spline(&ds, co_index(1, 7, 0, slot), 9, ek);
    let s8 = evaluate_spline(&ds, co_index(1, 8, 0, slot), 9, ek);
    let expect = fadd(fmul(s7, 750_000), fmul(s8, 250_000));
    assert_eq!(got, expect);
}

#[test]
fn blend_at_top_turbidity_collapses_the_bands() {
    // At turbidity 10 both bands are band 10; any fraction reads one spline.
    let ds = co_table(|i| (i as i64 % 13) * 1000);
    let sun_theta = 0;
    let got = evaluate(&ds, 3, 9, 10_000_000, 0, sun_theta);
    // At zenith the elevation parameter is one: the last control point of
    // the albedo-zero band-10 record.
    assert_eq!(got, ds[co_index(0, 10, 5, 3)]);
}

#[test]
fn blend_at_zenith_uses_the_last_control_point() {
    // theta = 0 gives elevation parameter exactly one; with albedo 0 and
    // turbidity 2.0 the result is one table entry, read exactly.
    let ds = co_table(|i| (i as i64) - 123);
    let got = evaluate(&ds, 7, 9, 2_000_000, 0, 0);
    assert_eq!(got, ds[co_index(0, 2, 5, 7)]);
}

#[test]
fn blend_mixes_albedo_halves_linearly() {
    // Constant halves: 0.2 below, 0.6 above; at albedo 0.25 the blend is
    // 0.2 * 0.75 + 0.6 * 0.25 = 0.3, independent of band and elevation.
    let ds = co_table(|i| if i < 540 { 200_000 } else { 600_000 });
    let got = evaluate(&ds, 4, 9, 5_500_000, 250_000, 0);
    assert_eq!(got, 300_000);
}
