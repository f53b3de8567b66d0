//! Assembly of the full parameter set: nine model coefficients and the raw
//! radiance term, per color channel.
//!
//! The coefficient table stores each control point's nine slots in the order
//! `A,B,C,D,E,F,G,I,H` — the last two slots are swapped relative to the
//! letter order of the radiance formula. The solver preserves that swap at
//! the lookup boundary: the `h` field reads table slot 8 and the `i` field
//! reads table slot 7, so the radiance formula consumes matched coefficients.

use vstd::prelude::*;
use crate::fx::SCALE;
use crate::fx::fits;
use crate::fx::all_fit;
use crate::approx::HALF_PI;
use crate::blend::spec_blend;
use crate::blend::evaluate;

verus! {

/// One scalar per color channel.
#[derive(Clone, Copy, Debug, PartialEq, Eq, Structural)]
pub struct Rgb {
    pub r: i64,
    pub g: i64,
    pub b: i64,
}

/// All three channels are well-formed scalars.
pub open spec fn rgb_fits(v: Rgb) -> bool {
    fits(v.r as int) && fits(v.g as int) && fits(v.b as int)
}

/// The solved parameters of one color channel: the nine coefficients of the
/// radiance formula and the raw radiance scale.
#[derive(Clone, Copy, Debug, PartialEq, Eq, Structural)]
pub struct ChannelParams {
    pub a: i64,
    pub b: i64,
    pub c: i64,
    pub d: i64,
    pub e: i64,
    pub f: i64,
    pub g: i64,
    pub h: i64,
    pub i: i64,
    pub z: i64,
}

/// Every solved parameter is a well-formed scalar.
pub open spec fn channel_params_fit(p: ChannelParams) -> bool {
    fits(p.a as int) && fits(p.b as int) && fits(p.c as int) && fits(p.d as int) && fits(
        p.e as int,
    ) && fits(p.f as int) && fits(p.g as int) && fits(p.h as int) && fits(p.i as int) && fits(
        p.z as int,
    )
}

/// The solved parameters of one channel: each coefficient is the blend of
/// its table slot, and the `h`/`i` pair reads the swapped slots 8 and 7.
pub open spec fn spec_channel_params(
    co: Seq<i64>,
    rad: Seq<i64>,
    turbidity: int,
    albedo: int,
    sun_theta: int,
) -> ChannelParams {
    ChannelParams {
        a: spec_blend(co, 0, 9, turbidity, albedo, sun_theta) as i64,
        b: spec_blend(co, 1, 9, turbidity, albedo, sun_theta) as i64,
        c: spec_blend(co, 2, 9, turbidity, albedo, sun_theta) as i64,
        d: spec_blend(co, 3, 9, turbidity, albedo, sun_theta) as i64,
        e: spec_blend(co, 4, 9, turbidity, albedo, sun_theta) as i64,
        f: spec_blend(co, 5, 9, turbidity, albedo, sun_theta) as i64,
        g: spec_blend(co, 6, 9, turbidity, albedo, sun_theta) as i64,
        h: spec_blend(co, 8, 9, turbidity, albedo, sun_theta) as i64,
        i: spec_blend(co, 7, 9, turbidity, albedo, sun_theta) as i64,
        z: spec_blend(rad, 0, 1, turbidity, albedo, sun_theta) as i64,
    }
}

/// Solve the nine coefficients and the raw radiance term of one channel.
///
/// `co` is the channel's coefficient table (two albedo halves, ten turbidity
/// bands, six control points, nine slots each); `rad` is the channel's
/// single-slot radiance table of the same band layout.
pub fn solve_channel(
    co: &[i64],
    rad: &[i64],
    turbidity: i64,
    albedo: i64,
    sun_theta: i64,
) -> (p: ChannelParams)
    requires
        all_fit(co@),
        all_fit(rad@),
        co@.len() >= 1080,
        rad@.len() >= 120,
        turbidity >= 0,
        fits(turbidity as int),
        0 <= albedo <= SCALE,
        0 <= sun_theta <= HALF_PI,
    ensures
        p == spec_channel_params(
            co@,
            rad@,
            turbidity as int,
            albedo as int,
            sun_theta as int,
        ),
        channel_params_fit(p),
{
    ChannelParams {
        a: evaluate(co, 0, 9, turbidity, albedo, sun_theta),
        b: evaluate(co, 1, 9, turbidity, albedo, sun_theta),
        c: evaluate(co, 2, 9, turbidity, albedo, sun_theta),
        d: evaluate(co, 3, 9, turbidity, albedo, sun_theta),
        e: evaluate(co, 4, 9, turbidity, albedo, sun_theta),
        f: evaluate(co, 5, 9, turbidity, albedo, sun_theta),
        g: evaluate(co, 6, 9, turbidity, albedo, sun_theta),
        // Table slots 7 and 8 are stored swapped; keep the swap here so the
        // radiance formula's H and I read the slots the dataset means.
        h: evaluate(co, 8, 9, turbidity, albedo, sun_theta),
        i: evaluate(co, 7, 9, turbidity, albedo, sun_theta),
        z: evaluate(rad, 0, 1, turbidity, albedo, sun_theta),
    }
}

} // verus!
