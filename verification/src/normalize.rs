//! Normalization of the raw radiance term.
//!
//! The solved model is evaluated once at zenith geometry and reduced to a
//! luminance through the sRGB luma weights; dividing the raw radiance term
//! by that luminance pins the assembled sky to a stable target brightness,
//! whatever the turbidity and albedo. A second, heuristic factor then fades
//! brightness with sun elevation: the elevation ratio is wrapped modulo
//! four and folded into a triangular wave, and the radiance term is scaled
//! by `0.6 + 0.45 * wave`. The folding is kept exactly as published,
//! including its deep-night zero branch; `lemma_day_night_continuous` shows
//! the resulting multiplier has no jump anywhere, the wrap boundaries at
//! plus and minus one and two included.

use vstd::prelude::*;
use crate::fx::SCALE;
use crate::fx::fits;
use crate::fx::tdiv;
use crate::fx::sat_clip;
use crate::fx::fx_add;
use crate::fx::fx_mul;
use crate::fx::fx_div;
use crate::fx::fadd;
use crate::fx::fmul;
use crate::fx::fdiv;
use crate::approx::HALF_PI;
use crate::approx::fx_cos;
use crate::approx::fxcos;
use crate::solver::Rgb;
use crate::solver::rgb_fits;
use crate::solver::ChannelParams;
use crate::solver::channel_params_fit;
use crate::radiance::spec_radiance_channel;
use crate::radiance::radiance_channel;

verus! {

/// sRGB luma weight of the red channel, in micro-units.
pub const LUMA_R: i64 = 212_600;

/// sRGB luma weight of the green channel, in micro-units.
pub const LUMA_G: i64 = 715_200;

/// sRGB luma weight of the blue channel, in micro-units.
pub const LUMA_B: i64 = 72_200;

/// Base brightness of the day/night heuristic (0.6).
pub const DAY_BASE: i64 = 600_000;

/// Brightness swing of the day/night heuristic (0.45).
pub const DAY_SPAN: i64 = 450_000;

/// The wrap modulus of the day/night heuristic (4.0).
pub const WRAP: i64 = 4_000_000;

/// Remainder rounding toward zero, defined for positive divisors: the
/// counterpart of `tdiv`, with the sign of the dividend.
pub open spec fn trem(a: int, b: int) -> int {
    a - b * tdiv(a, b)
}

/// The luminance of a color: its dot product with the sRGB luma weights.
pub open spec fn spec_luminance(r: int, g: int, b: int) -> int {
    fx_add(fx_add(fx_mul(r, LUMA_R as int), fx_mul(g, LUMA_G as int)), fx_mul(b, LUMA_B as int))
}

/// Reduce a color to its luminance.
pub fn luminance(s: Rgb) -> (l: i64)
    requires
        rgb_fits(s),
    ensures
        l == spec_luminance(s.r as int, s.g as int, s.b as int),
        fits(l as int),
{
    fadd(fadd(fmul(s.r, LUMA_R), fmul(s.g, LUMA_G)), fmul(s.b, LUMA_B))
}

/// Truncating remainder of a scalar by a positive scalar.
pub fn tremp(a: i64, b: i64) -> (r: i64)
    requires
        fits(a as int),
        0 < b,
    ensures
        r == trem(a as int, b as int),
        -b < r < b,
        fits(r as int),
{
    if a >= 0 {
        let q: i64 = ((a as u64) % (b as u64)) as i64;
        proof {
            vstd::arithmetic::div_mod::lemma_fundamental_div_mod(a as int, b as int);
            assert(a as int - b as int * tdiv(a as int, b as int) == a as int % (b as int));
        }
        q
    } else {
        let m: i64 = -a;
        let q: i64 = ((m as u64) % (b as u64)) as i64;
        proof {
            let mi = m as int;
            let bi = b as int;
            vstd::arithmetic::div_mod::lemma_fundamental_div_mod(mi, bi);
            assert(mi - bi * (mi / bi) == mi % bi);
            assert(bi * (-(mi / bi)) == -(bi * (mi / bi))) by (nonlinear_arith);
            assert(a as int - bi * tdiv(a as int, bi) == -(mi % bi));
        }
        -q
    }
}

/// The published triangular fold of the wrapped sun amount: deep-night
/// values above two are zeroed, values beyond one in either direction are
/// mirrored back toward the horizon.
pub open spec fn fold_sun(sa: int) -> int {
    let sa1 = if sa > 2 * (SCALE as int) {
        0
    } else {
        sa
    };
    if sa1 > SCALE as int {
        2 * (SCALE as int) - sa1
    } else if sa1 < -(SCALE as int) {
        -2 * (SCALE as int) - sa1
    } else {
        sa1
    }
}

/// The day/night brightness multiplier of a wrapped sun amount.
pub open spec fn day_night_multiplier(sa: int) -> int {
    fx_add(DAY_BASE as int, fx_mul(DAY_SPAN as int, fold_sun(sa)))
}

/// The wrapped sun amount of a sun-direction height: the elevation ratio,
/// with its truncating remainder modulo four.
pub open spec fn sun_amount(sun_dir_y: int) -> int {
    trem(fx_div(sun_dir_y, HALF_PI as int), WRAP as int)
}

/// Compute the day/night brightness multiplier from the sun height.
pub fn day_night_factor(sun_dir_y: i64) -> (f: i64)
    requires
        fits(sun_dir_y as int),
    ensures
        f == day_night_multiplier(sun_amount(sun_dir_y as int)),
        fits(f as int),
{
    let q: i64 = fdiv(sun_dir_y, HALF_PI);
    let sa_raw: i64 = tremp(q, WRAP);
    let sa1: i64 = if sa_raw > 2 * SCALE {
        0
    } else {
        sa_raw
    };
    let folded: i64 = if sa1 > SCALE {
        2 * SCALE - sa1
    } else if sa1 < -SCALE {
        -2 * SCALE - sa1
    } else {
        sa1
    };
    fadd(DAY_BASE, fmul(DAY_SPAN, folded))
}

/// The normalized radiance term: the raw term divided by the zenith
/// luminance of the assembled model (floored at one micro-unit), then
/// scaled by the day/night multiplier.
pub open spec fn spec_normalized_z(
    raw_z: Rgb,
    pr: ChannelParams,
    pg: ChannelParams,
    pb: ChannelParams,
    sun_theta: int,
    sun_dir_y: int,
) -> Rgb {
    let ct = fx_cos(sun_theta);
    let sr = fx_mul(spec_radiance_channel(ct, 0, SCALE as int, pr), raw_z.r as int);
    let sg = fx_mul(spec_radiance_channel(ct, 0, SCALE as int, pg), raw_z.g as int);
    let sb = fx_mul(spec_radiance_channel(ct, 0, SCALE as int, pb), raw_z.b as int);
    let lum = spec_luminance(sr, sg, sb);
    let lum_c = if lum < 1 {
        1
    } else {
        lum
    };
    let factor = day_night_multiplier(sun_amount(sun_dir_y));
    Rgb {
        r: fx_mul(fx_div(raw_z.r as int, lum_c), factor) as i64,
        g: fx_mul(fx_div(raw_z.g as int, lum_c), factor) as i64,
        b: fx_mul(fx_div(raw_z.b as int, lum_c), factor) as i64,
    }
}

/// Normalize the raw radiance term against the solved coefficients.
pub fn normalize_z(
    raw_z: Rgb,
    pr: &ChannelParams,
    pg: &ChannelParams,
    pb: &ChannelParams,
    sun_theta: i64,
    sun_dir_y: i64,
) -> (z: Rgb)
    requires
        rgb_fits(raw_z),
        channel_params_fit(*pr),
        channel_params_fit(*pg),
        channel_params_fit(*pb),
        0 <= sun_theta <= HALF_PI,
        fits(sun_dir_y as int),
    ensures
        z == spec_normalized_z(raw_z, *pr, *pg, *pb, sun_theta as int, sun_dir_y as int),
        rgb_fits(z),
{
    // The model at zenith geometry: view along the sun, cosGamma = 1.
    let ct: i64 = fxcos(sun_theta);
    let sr: i64 = fmul(radiance_channel(ct, 0, SCALE, pr), raw_z.r);
    let sg: i64 = fmul(radiance_channel(ct, 0, SCALE, pg), raw_z.g);
    let sb: i64 = fmul(radiance_channel(ct, 0, SCALE, pb), raw_z.b);
    let lum: i64 = luminance(Rgb { r: sr, g: sg, b: sb });
    // The luminance divisor, floored at one micro-unit to stay defined.
    let lum_c: i64 = if lum < 1 {
        1
    } else {
        lum
    };
    let factor: i64 = day_night_factor(sun_dir_y);
    Rgb {
        r: fmul(fdiv(raw_z.r, lum_c), factor),
        g: fmul(fdiv(raw_z.g, lum_c), factor),
        b: fmul(fdiv(raw_z.b, lum_c), factor),
    }
}

/// One micro-unit of wrapped sun amount moves the triangular fold by at
/// most one micro-unit.
proof fn lemma_fold_sun_step(sa: int)
    ensures
        fold_sun(sa + 1) - fold_sun(sa) <= 1,
        fold_sun(sa) - fold_sun(sa + 1) <= 1,
{
}

/// Quotients move by at most one when the dividend moves by less than the
/// divisor.
proof fn lemma_tdiv_step_small(a: int, c: int, d: int)
    requires
        d >= 1,
        0 <= c < d,
    ensures
        tdiv(a, d) <= tdiv(a + c, d) <= tdiv(a, d) + 1,
{
    if a >= 0 {
        assert(a / d <= (a + c) / d <= a / d + 1) by (nonlinear_arith)
            requires
                a >= 0,
                d >= 1,
                0 <= c < d,
        ;
    } else if a + c < 0 {
        assert((-(a + c)) / d <= (-a) / d <= (-(a + c)) / d + 1) by (nonlinear_arith)
            requires
                a + c < 0,
                d >= 1,
                0 <= c < d,
        ;
    } else {
        assert((-a) / d == 0 && (a + c) / d == 0) by (nonlinear_arith)
            requires
                a < 0 <= a + c,
                d >= 1,
                0 <= c < d,
        ;
    }
}

/// Continuity of the day/night brightness heuristic: across the whole
/// wrapped range, the one-micro-unit steps of the sun amount move the
/// multiplier by at most one micro-unit — there is no jump at the wrap
/// boundaries of plus or minus one, nor at the deep-night cutoff of two.
pub proof fn lemma_day_night_continuous(sa: int)
    requires
        -4 * (SCALE as int) <= sa <= 4 * (SCALE as int),
    ensures
        fold_sun(sa + 1) - fold_sun(sa) <= 1,
        fold_sun(sa) - fold_sun(sa + 1) <= 1,
        day_night_multiplier(sa + 1) - day_night_multiplier(sa) <= 1,
        day_night_multiplier(sa) - day_night_multiplier(sa + 1) <= 1,
{
    lemma_fold_sun_step(sa);
    let m0 = fold_sun(sa);
    let m1 = fold_sun(sa + 1);
    let s = SCALE as int;
    let span = DAY_SPAN as int;
    assert(-6 * s <= m0 <= 6 * s && -6 * s <= m1 <= 6 * s);
    let p0 = span * m0;
    let p1 = span * m1;
    assert(-6 * s * span <= p0 <= 6 * s * span && -6 * s * span <= p1 <= 6 * s * span)
        by (nonlinear_arith)
        requires
            -6 * s <= m0 <= 6 * s,
            -6 * s <= m1 <= 6 * s,
            span == DAY_SPAN as int,
            s == SCALE as int,
            p0 == span * m0,
            p1 == span * m1,
    ;
    crate::fx::lemma_tdiv_in_magnitude(p0, s);
    crate::fx::lemma_tdiv_in_magnitude(p1, s);
    if m1 == m0 + 1 {
        assert(p1 == p0 + span) by (nonlinear_arith)
            requires
                m1 == m0 + 1,
                p0 == span * m0,
                p1 == span * m1,
        ;
        lemma_tdiv_step_small(p0, span, s);
    } else if m1 == m0 - 1 {
        assert(p0 == p1 + span) by (nonlinear_arith)
            requires
                m1 == m0 - 1,
                p0 == span * m0,
                p1 == span * m1,
        ;
        lemma_tdiv_step_small(p1, span, s);
    } else {
        assert(m1 == m0);
    }
    assert(sat_clip(tdiv(p0, s)) == tdiv(p0, s));
    assert(sat_clip(tdiv(p1, s)) == tdiv(p1, s));
}

} // verus!
