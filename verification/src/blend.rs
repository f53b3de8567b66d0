//! Bilinear blending of spline evaluations across the dataset's two albedo
//! extremes and two adjacent turbidity bands.
//!
//! The coefficient table covers ground albedo zero and one, and integer
//! turbidity bands one through ten. A query at a fractional turbidity and
//! albedo evaluates the elevation spline at the four surrounding table
//! corners and combines them with bilinear weights. At an exact integer
//! turbidity the adjacent band contributes nothing
//! (`lemma_blend_band_exact`), and at either albedo extreme only that
//! albedo's half of the table is read (`lemma_blend_albedo_zero`,
//! `lemma_blend_albedo_one`).

use vstd::prelude::*;
use crate::fx::SCALE;
use crate::fx::fits;
use crate::fx::all_fit;
use crate::fx::fx_add;
use crate::fx::fx_sub;
use crate::fx::fx_mul;
use crate::fx::fx_div;
use crate::fx::fadd;
use crate::fx::fsub;
use crate::fx::fmul;
use crate::fx::fdiv;
use crate::fx::clamp;
use crate::fx::min;
use crate::fx::lemma_fx_mul_one;
use crate::fx::lemma_fx_mul_zero;
use crate::approx::HALF_PI;
use crate::approx::cbrt_floor;
use crate::approx::fxcbrt;
use crate::spline::spec_spline;
use crate::spline::evaluate_spline;

verus! {

/// The elevation parameter of a zenith angle: the cube root of
/// `1 - theta / (pi/2)`, floored at zero. The cube root mirrors the
/// dataset's elevation warping, which samples densely near the horizon.
pub open spec fn elevation_param(sun_theta: int) -> int {
    let ratio = fx_div(sun_theta, HALF_PI as int);
    let mr = fx_sub(SCALE as int, ratio);
    let m = if mr < 0 {
        0
    } else {
        mr
    };
    cbrt_floor(m)
}

/// The lower turbidity band of a query: its integer part, kept inside the
/// tabulated range one through ten.
pub open spec fn band0(turbidity: int) -> int {
    let f = turbidity / (SCALE as int);
    if f < 1 {
        1
    } else if f > 10 {
        10
    } else {
        f
    }
}

/// The adjacent upper turbidity band, which collapses onto the lower one at
/// the top of the tabulated range.
pub open spec fn band1(turbidity: int) -> int {
    if band0(turbidity) < 10 {
        band0(turbidity) + 1
    } else {
        10
    }
}

/// The fractional weight of the upper band, in the unit interval.
pub open spec fn band_frac(turbidity: int) -> int {
    let d = turbidity - band0(turbidity) * (SCALE as int);
    if d < 0 {
        0
    } else if d > SCALE as int {
        SCALE as int
    } else {
        d
    }
}

/// Start of the six control points for one table corner: `albedo_half`
/// selects the albedo-one half of the table, `band` the turbidity band.
pub open spec fn corner_start(offset: int, stride: int, albedo_half: int, band: int) -> int {
    offset + stride * 60 * albedo_half + stride * 6 * (band - 1)
}

/// The bilinear blend of the four corner splines around a query, at the
/// query's elevation parameter.
pub open spec fn spec_blend(
    ds: Seq<i64>,
    offset: int,
    stride: int,
    turbidity: int,
    albedo: int,
    sun_theta: int,
) -> int {
    let ek = elevation_param(sun_theta);
    let t0 = band0(turbidity);
    let t1 = band1(turbidity);
    let tk = band_frac(turbidity);
    let a0t0 = spec_spline(ds, corner_start(offset, stride, 0, t0), stride, ek);
    let a1t0 = spec_spline(ds, corner_start(offset, stride, 1, t0), stride, ek);
    let a0t1 = spec_spline(ds, corner_start(offset, stride, 0, t1), stride, ek);
    let a1t1 = spec_spline(ds, corner_start(offset, stride, 1, t1), stride, ek);
    let om_al = fx_sub(SCALE as int, albedo);
    let om_tk = fx_sub(SCALE as int, tk);
    fx_add(
        fx_add(
            fx_add(fx_mul(fx_mul(a0t0, om_al), om_tk), fx_mul(fx_mul(a1t0, albedo), om_tk)),
            fx_mul(fx_mul(a0t1, om_al), tk),
        ),
        fx_mul(fx_mul(a1t1, albedo), tk),
    )
}

/// Blend one coefficient slot of the dataset at the given turbidity, albedo
/// and sun zenith angle. `offset` selects the slot inside each control
/// point's record, `stride` is the record width.
pub fn evaluate(
    ds: &[i64],
    offset: usize,
    stride: usize,
    turbidity: i64,
    albedo: i64,
    sun_theta: i64,
) -> (r: i64)
    requires
        all_fit(ds@),
        stride >= 1,
        offset + 119 * stride < ds@.len(),
        turbidity >= 0,
        fits(turbidity as int),
        0 <= albedo <= SCALE,
        0 <= sun_theta <= HALF_PI,
    ensures
        r == spec_blend(
            ds@,
            offset as int,
            stride as int,
            turbidity as int,
            albedo as int,
            sun_theta as int,
        ),
        fits(r as int),
{
    let n: usize = ds.len();
    proof {
        assert(n == ds@.len());
    }
    // Splines are functions of the cube root of the normalized elevation.
    let ratio: i64 = fdiv(sun_theta, HALF_PI);
    let mr: i64 = fsub(SCALE, ratio);
    let m: i64 = if mr < 0 {
        0
    } else {
        mr
    };
    let ek: i64 = fxcbrt(m);
    // The table holds values for turbidity bands 1 through 10.
    let tw: u64 = (turbidity as u64) / (SCALE as u64);
    proof {
        assert(tw <= turbidity);
    }
    let t0: i64 = clamp(tw as i64, 1, 10);
    let t1: i64 = min(t0 + 1, 10);
    let tk: i64 = clamp(turbidity - t0 * SCALE, 0, SCALE);
    // The four table corners around the query.
    proof {
        assert(0 <= stride as int * 6 * (t0 as int - 1) <= stride as int * 54 && 0 <= stride as int
            * 6 * (t1 as int - 1) <= stride as int * 54) by (nonlinear_arith)
            requires
                1 <= t0 as int <= 10,
                1 <= t1 as int <= 10,
                stride >= 1,
        ;
    }
    let band0_off: usize = stride * 6 * ((t0 as usize) - 1);
    let band1_off: usize = stride * 6 * ((t1 as usize) - 1);
    let a0t0: i64 = evaluate_spline(ds, offset + band0_off, stride, ek);
    let a1t0: i64 = evaluate_spline(ds, offset + stride * 60 + band0_off, stride, ek);
    let a0t1: i64 = evaluate_spline(ds, offset + band1_off, stride, ek);
    let a1t1: i64 = evaluate_spline(ds, offset + stride * 60 + band1_off, stride, ek);
    // Bilinear combination over albedo and the turbidity fraction.
    let om_al: i64 = fsub(SCALE, albedo);
    let om_tk: i64 = fsub(SCALE, tk);
    fadd(
        fadd(
            fadd(fmul(fmul(a0t0, om_al), om_tk), fmul(fmul(a1t0, albedo), om_tk)),
            fmul(fmul(a0t1, om_al), tk),
        ),
        fmul(fmul(a1t1, albedo), tk),
    )
}

/// At the top of the tabulated range the two turbidity bands collapse: both
/// corners of the blend read band ten, so the degenerate case needs no
/// special branch.
pub proof fn lemma_top_band_collapses(turbidity: int)
    requires
        turbidity >= 10 * (SCALE as int),
    ensures
        band0(turbidity) == 10,
        band1(turbidity) == 10,
{
    assert(turbidity / (SCALE as int) >= 10) by (nonlinear_arith)
        requires
            turbidity >= 10 * (SCALE as int),
    ;
}

/// At a turbidity lying exactly on a tabulated band, the blend reduces to
/// that band alone: the adjacent band's weight is zero, and only the albedo
/// mix of the one band remains.
pub proof fn lemma_blend_band_exact(
    ds: Seq<i64>,
    offset: int,
    stride: int,
    k: int,
    albedo: int,
    sun_theta: int,
)
    requires
        all_fit(ds),
        stride >= 1,
        0 <= offset,
        offset + 119 * stride < ds.len(),
        1 <= k <= 10,
        0 <= albedo <= SCALE as int,
    ensures
        spec_blend(ds, offset, stride, k * (SCALE as int), albedo, sun_theta) == fx_add(
            fx_mul(
                spec_spline(
                    ds,
                    corner_start(offset, stride, 0, k),
                    stride,
                    elevation_param(sun_theta),
                ),
                fx_sub(SCALE as int, albedo),
            ),
            fx_mul(
                spec_spline(
                    ds,
                    corner_start(offset, stride, 1, k),
                    stride,
                    elevation_param(sun_theta),
                ),
                albedo,
            ),
        ),
{
    let s = SCALE as int;
    let turbidity = k * s;
    vstd::arithmetic::div_mod::lemma_div_by_multiple(k, s);
    assert(turbidity / s == k);
    assert(band0(turbidity) == k);
    assert(band_frac(turbidity) == 0);
    let ek = elevation_param(sun_theta);
    let a0t0 = spec_spline(ds, corner_start(offset, stride, 0, k), stride, ek);
    let a1t0 = spec_spline(ds, corner_start(offset, stride, 1, k), stride, ek);
    let a0t1 = spec_spline(ds, corner_start(offset, stride, 0, band1(turbidity)), stride, ek);
    let a1t1 = spec_spline(ds, corner_start(offset, stride, 1, band1(turbidity)), stride, ek);
    let om_al = fx_sub(s, albedo);
    let m1 = fx_mul(a0t0, om_al);
    let m2 = fx_mul(a1t0, albedo);
    lemma_fx_mul_one(m1);
    lemma_fx_mul_one(m2);
    lemma_fx_mul_zero(fx_mul(a0t1, om_al));
    lemma_fx_mul_zero(fx_mul(a1t1, albedo));
}

/// At albedo zero the blend reads only the albedo-zero half of the table:
/// the turbidity mix of the two low-albedo corner splines.
pub proof fn lemma_blend_albedo_zero(
    ds: Seq<i64>,
    offset: int,
    stride: int,
    turbidity: int,
    sun_theta: int,
)
    requires
        all_fit(ds),
        stride >= 1,
        0 <= offset,
        offset + 119 * stride < ds.len(),
    ensures
        spec_blend(ds, offset, stride, turbidity, 0, sun_theta) == fx_add(
            fx_mul(
                spec_spline(
                    ds,
                    corner_start(offset, stride, 0, band0(turbidity)),
                    stride,
                    elevation_param(sun_theta),
                ),
                fx_sub(SCALE as int, band_frac(turbidity)),
            ),
            fx_mul(
                spec_spline(
                    ds,
                    corner_start(offset, stride, 0, band1(turbidity)),
                    stride,
                    elevation_param(sun_theta),
                ),
                band_frac(turbidity),
            ),
        ),
{
    let s = SCALE as int;
    let ek = elevation_param(sun_theta);
    let tk = band_frac(turbidity);
    let om_tk = fx_sub(s, tk);
    let a0t0 = spec_spline(ds, corner_start(offset, stride, 0, band0(turbidity)), stride, ek);
    let a1t0 = spec_spline(ds, corner_start(offset, stride, 1, band0(turbidity)), stride, ek);
    let a0t1 = spec_spline(ds, corner_start(offset, stride, 0, band1(turbidity)), stride, ek);
    let a1t1 = spec_spline(ds, corner_start(offset, stride, 1, band1(turbidity)), stride, ek);
    lemma_fx_mul_one(a0t0);
    lemma_fx_mul_one(a0t1);
    lemma_fx_mul_zero(a1t0);
    lemma_fx_mul_zero(a1t1);
    lemma_fx_mul_zero(om_tk);
    lemma_fx_mul_zero(tk);
}

/// At albedo one the blend reads only the albedo-one half of the table.
pub proof fn lemma_blend_albedo_one(
    ds: Seq<i64>,
    offset: int,
    stride: int,
    turbidity: int,
    sun_theta: int,
)
    requires
        all_fit(ds),
        stride >= 1,
        0 <= offset,
        offset + 119 * stride < ds.len(),
    ensures
        spec_blend(ds, offset, stride, turbidity, SCALE as int, sun_theta) == fx_add(
            fx_mul(
                spec_spline(
                    ds,
                    corner_start(offset, stride, 1, band0(turbidity)),
                    stride,
                    elevation_param(sun_theta),
                ),
                fx_sub(SCALE as int, band_frac(turbidity)),
            ),
            fx_mul(
                spec_spline(
                    ds,
                    corner_start(offset, stride, 1, band1(turbidity)),
                    stride,
                    elevation_param(sun_theta),
                ),
                band_frac(turbidity),
            ),
        ),
{
    let s = SCALE as int;
    let ek = elevation_param(sun_theta);
    let tk = band_frac(turbidity);
    let om_tk = fx_sub(s, tk);
    let a0t0 = spec_spline(ds, corner_start(offset, stride, 0, band0(turbidity)), stride, ek);
    let a1t0 = spec_spline(ds, corner_start(offset, stride, 1, band0(turbidity)), stride, ek);
    let a0t1 = spec_spline(ds, corner_start(offset, stride, 0, band1(turbidity)), stride, ek);
    let a1t1 = spec_spline(ds, corner_start(offset, stride, 1, band1(turbidity)), stride, ek);
    lemma_fx_mul_one(a1t0);
    lemma_fx_mul_one(a1t1);
    lemma_fx_mul_zero(a0t0);
    lemma_fx_mul_zero(a0t1);
    lemma_fx_mul_zero(om_tk);
    lemma_fx_mul_zero(tk);
}

} // verus!
