//! The coefficient solver, radiance formula and normalization, end to end.

use hosek_sky::approx::HALF_PI;
use hosek_sky::fx::{SAT, SCALE};
use hosek_sky::normalize::{day_night_factor, luminance};
use hosek_sky::radiance::radiance_channel;
use hosek_sky::sky::recalc_sky;
use hosek_sky::solver::{solve_channel, ChannelParams, Rgb};

/// A coefficient table (stride 9) filled from the flat index.
fn co_table(f: impl Fn(usize) -> i64) -> Vec<i64> {
    (0..1080).map(f).collect()
}

/// A radiance table (stride 1) filled from the flat index.
fn rad_table(f: impl Fn(usize) -> i64) -> Vec<i64> {
    (0..120).map(f).collect()
}

/// The flat index of slot `slot`, control point `cp`, band `band`, albedo
/// half `half` in a stride-9 table.
fn co_index(half: usize, band: usize, cp: usize, slot: usize) -> usize {
    slot + 540 * half + 54 * (band - 1) + 9 * cp
}

fn zero_params() -> ChannelParams {
    ChannelParams { a: 0, b: 0, c: 0, d: 0, e: 0, f: 0, g: 0, h: 0, i: 0, z: 0 }
}

#[test]
fn solver_reads_the_swapped_slots() {
    // At zenith, albedo zero and turbidity 3.0 each solved coefficient is
    // one exact table entry: control point 5 of band 3. The H coefficient
    // must come from table slot 8 and I from slot 7 — the dataset stores
    // those two swapped.
    let co = co_table(|i| i as i64);
    let rad = rad_table(|i| 1000 + i as i64);
    let p = solve_channel(&co, &rad, 3_000_000, 0, 0);
    assert_eq!(p.a, co[co_index(0, 3, 5, 0)] );
    assert_eq!(p.b, co[co_index(0, 3, 5, 1)] );
    assert_eq!(p.c, co[co_index(0, 3, 5, 2)] );
    assert_eq!(p.d, co[co_index(0, 3, 5, 3)] );
    assert_eq!(p.e, co[co_index(0, 3, 5, 4)] );
    assert_eq!(p.f, co[co_index(0, 3, 5, 5)] );
    assert_eq!(p.g, co[co_index(0, 3, 5, 6)] );
    assert_eq!(p.h, co[co_index(0, 3, 5, 8)] );
    assert_eq!(p.i, co[co_index(0, 3, 5, 7)] );
    // The radiance table: stride 1, band 3, control point 5.
    assert_eq!(p.z, rad[2 * 6 + 5]);
}

#[test]
fn radiance_with_zero_coefficients_is_zero() {
    let p = zero_params();
    assert_eq!(radiance_channel(SCALE, 0, SCALE, &p), 0);
}

#[test]
fn radiance_of_the_constant_term_alone() {
    // With only C set, the formula is (1 + 0) * C.
    let p = ChannelParams { c: 750_000, ..zero_params() };
    assert_eq!(radiance_channel(SCALE, 0, SCALE, &p), 750_000);
}

#[test]
fn radiance_at_the_horizon_stays_bounded() {
    // cosTheta = 0 must not divide by zero: the 0.01 offset guards the
    // exponential, and the result is a well-formed scalar.
    let p = ChannelParams {
        a: -1_500_000,
        b: -200_000,
        c: 300_000,
        d: 2_000_000,
        e: -3_000_000,
        f: 150_000,
        g: 400_000,
        h: 900_000,
        i: 500_000,
        z: SCALE,
    };
    let r = radiance_channel(0, 0, SCALE, &p);
    assert!(r.abs() <= SAT);
}

#[test]
fn radiance_at_grazing_alignment_stays_bounded() {
    // H = 1 and cosGamma = 1 drives chi's denominator to zero; the model
    // floors it and returns a large but bounded value.
    let p = ChannelParams { g: SCALE, h: SCALE, ..zero_params() };
    let r = radiance_channel(SCALE, 0, SCALE, &p);
    assert!(r > 0 && r <= SAT);
}

#[test]
fn day_night_factor_is_full_at_noon_elevation() {
    // Sun height pi/2 maps to a sun amount of one: factor 0.6 + 0.45.
    assert_eq!(day_night_factor(HALF_PI), 1_050_000);
}

#[test]
fn day_night_factor_is_continuous_at_the_mirror_boundary() {
    // Just past the sun amount of one, the wave mirrors back: one
    // micro-unit of input moves the factor by one micro-unit.
    let below = day_night_factor(HALF_PI - 2);
    let at = day_night_factor(HALF_PI);
    let above = day_night_factor(HALF_PI + 2);
    assert!((at - below).abs() <= 2);
    assert!((at - above).abs() <= 2);
}

#[test]
fn day_night_factor_is_continuous_at_the_night_cutoff() {
    // Sun amount two is where the deep-night branch zeroes the wave; the
    // mirrored wave reaches zero there too, so there is no jump.
    let at = day_night_factor(2 * HALF_PI);
    let above = day_night_factor(2 * HALF_PI + 2);
    let below = day_night_factor(2 * HALF_PI - 2);
    assert_eq!(at, 600_000);
    assert!((at - above).abs() <= 2);
    assert!((at - below).abs() <= 2);
}

#[test]
fn day_night_factor_at_negative_elevation() {
    // Sun height -pi/2 maps to a sun amount of minus one: 0.6 - 0.45.
    assert_eq!(day_night_factor(-HALF_PI), 150_000);
    let above = day_night_factor(-HALF_PI + 2);
    let below = day_night_factor(-HALF_PI - 2);
    assert!((above - 150_000).abs() <= 2);
    assert!((below - 150_000).abs() <= 2);
}

#[test]
fn zenith_sun_gives_positive_normalized_radiance() {
    // Sun at the zenith, turbidity 4.0, albedo 0.1 on all channels: the
    // normalized radiance term must come out strictly positive and
    // well-formed on every channel.
    let co = co_table(|i| 100_000 + (i as i64 % 9) * 1000);
    let rad = rad_table(|_| 500_000);
    let sky = recalc_sky(
        &co,
        &rad,
        &co,
        &rad,
        &co,
        &rad,
        4_000_000,
        Rgb { r: 100_000, g: 100_000, b: 100_000 },
        0,
        SCALE,
    );
    assert!(sky.z.r > 0 && sky.z.g > 0 && sky.z.b > 0);
    assert!(sky.z.r <= SAT && sky.z.g <= SAT && sky.z.b <= SAT);
    // Each coefficient slot of this table holds one constant, so the
    // albedo mix returns it exactly; slots H and I read the swapped cells.
    assert_eq!(sky.a.r, 100_000);
    assert_eq!(sky.g.b, 106_000);
    assert_eq!(sky.h.r, 108_000);
    assert_eq!(sky.i.r, 107_000);
}

#[test]
fn horizon_sun_completes_without_a_division_error() {
    // Sun on the horizon: theta = pi/2, height 0. Every division in the
    // pipeline stays defined.
    let co = co_table(|i| -50_000 + (i as i64 % 7) * 10_000);
    let rad = rad_table(|i| 200_000 + i as i64);
    let sky = recalc_sky(
        &co,
        &rad,
        &co,
        &rad,
        &co,
        &rad,
        4_000_000,
        Rgb { r: 100_000, g: 100_000, b: 100_000 },
        HALF_PI,
        0,
    );
    assert!(sky.z.r.abs() <= SAT && sky.z.g.abs() <= SAT && sky.z.b.abs() <= SAT);
}

#[test]
fn luminance_trend_falls_from_zenith_to_horizon() {
    // With the model coefficients zeroed the normalization reduces to the
    // day/night fade, so the output luminance must fall monotonically as
    // the sun drops from the zenith toward the horizon, with turbidity and
    // albedo held fixed.
    let co = co_table(|_| 0);
    let rad = rad_table(|_| 500_000);
    let mut last = i64::MAX;
    for step in 0..6 {
        let y = 1.0f64 - (step as f64) * 0.2;
        let theta = (y.acos() * 1e6) as i64;
        let y_fx = (y * 1e6) as i64;
        let sky = recalc_sky(
            &co,
            &rad,
            &co,
            &rad,
            &co,
            &rad,
            4_000_000,
            Rgb { r: 100_000, g: 100_000, b: 100_000 },
            theta.min(HALF_PI),
            y_fx,
        );
        let lum = luminance(sky.z);
        assert!(lum < last, "luminance did not fall at step {}", step);
        last = lum;
    }
}
