//! The full solve: from sun geometry and configuration to the ten
//! per-channel parameter vectors a sky shader consumes.
//!
//! One call blends the nine coefficients and the raw radiance term for each
//! color channel, then normalizes the radiance term against the model's own
//! zenith luminance and the day/night heuristic. The caller supplies the
//! sun's zenith angle and the height of the sun direction vector; deriving
//! those from a rotation is the embedding program's concern.

use vstd::prelude::*;
use crate::fx::SCALE;
use crate::fx::fits;
use crate::fx::all_fit;
use crate::approx::HALF_PI;
use crate::solver::Rgb;
use crate::solver::rgb_fits;
use crate::solver::ChannelParams;
use crate::solver::spec_channel_params;
use crate::solver::solve_channel;
use crate::normalize::spec_normalized_z;
use crate::normalize::normalize_z;

verus! {

/// The solved sky: one three-channel vector per coefficient slot of the
/// radiance formula, and the normalized radiance scale `z`. The slot order
/// matches what the shader uniform upload expects.
#[derive(Clone, Copy, Debug, PartialEq, Eq, Structural)]
pub struct SkyParams {
    pub a: Rgb,
    pub b: Rgb,
    pub c: Rgb,
    pub d: Rgb,
    pub e: Rgb,
    pub f: Rgb,
    pub g: Rgb,
    pub h: Rgb,
    pub i: Rgb,
    pub z: Rgb,
}

/// Transpose three solved channels and a normalized radiance term into the
/// per-slot layout.
pub open spec fn spec_assemble(
    pr: ChannelParams,
    pg: ChannelParams,
    pb: ChannelParams,
    z: Rgb,
) -> SkyParams {
    SkyParams {
        a: Rgb { r: pr.a, g: pg.a, b: pb.a },
        b: Rgb { r: pr.b, g: pg.b, b: pb.b },
        c: Rgb { r: pr.c, g: pg.c, b: pb.c },
        d: Rgb { r: pr.d, g: pg.d, b: pb.d },
        e: Rgb { r: pr.e, g: pg.e, b: pb.e },
        f: Rgb { r: pr.f, g: pg.f, b: pb.f },
        g: Rgb { r: pr.g, g: pg.g, b: pb.g },
        h: Rgb { r: pr.h, g: pg.h, b: pb.h },
        i: Rgb { r: pr.i, g: pg.i, b: pb.i },
        z,
    }
}

/// The solved sky of one configuration: per-channel coefficient solves,
/// with the radiance term normalized against them.
pub open spec fn spec_recalc_sky(
    r_co: Seq<i64>,
    r_rad: Seq<i64>,
    g_co: Seq<i64>,
    g_rad: Seq<i64>,
    b_co: Seq<i64>,
    b_rad: Seq<i64>,
    turbidity: int,
    albedo: Rgb,
    sun_theta: int,
    sun_dir_y: int,
) -> SkyParams {
    let pr = spec_channel_params(r_co, r_rad, turbidity, albedo.r as int, sun_theta);
    let pg = spec_channel_params(g_co, g_rad, turbidity, albedo.g as int, sun_theta);
    let pb = spec_channel_params(b_co, b_rad, turbidity, albedo.b as int, sun_theta);
    let raw_z = Rgb { r: pr.z, g: pg.z, b: pb.z };
    spec_assemble(pr, pg, pb, spec_normalized_z(raw_z, pr, pg, pb, sun_theta, sun_dir_y))
}

/// Solve the sky for a sun position.
///
/// `*_co` are the three channels' coefficient tables and `*_rad` their
/// radiance tables. `sun_theta` is the sun's zenith angle clamped to the
/// upper hemisphere; `sun_dir_y` is the height of the sun direction vector,
/// which drives the day/night fade and may be negative below the horizon.
#[verifier::rlimit(100)]
pub fn recalc_sky(
    r_co: &[i64],
    r_rad: &[i64],
    g_co: &[i64],
    g_rad: &[i64],
    b_co: &[i64],
    b_rad: &[i64],
    turbidity: i64,
    albedo: Rgb,
    sun_theta: i64,
    sun_dir_y: i64,
) -> (sky: SkyParams)
    requires
        all_fit(r_co@) && all_fit(r_rad@),
        all_fit(g_co@) && all_fit(g_rad@),
        all_fit(b_co@) && all_fit(b_rad@),
        r_co@.len() >= 1080 && g_co@.len() >= 1080 && b_co@.len() >= 1080,
        r_rad@.len() >= 120 && g_rad@.len() >= 120 && b_rad@.len() >= 120,
        turbidity >= 0,
        fits(turbidity as int),
        0 <= albedo.r <= SCALE && 0 <= albedo.g <= SCALE && 0 <= albedo.b <= SCALE,
        0 <= sun_theta <= HALF_PI,
        fits(sun_dir_y as int),
    ensures
        sky == spec_recalc_sky(
            r_co@,
            r_rad@,
            g_co@,
            g_rad@,
            b_co@,
            b_rad@,
            turbidity as int,
            albedo,
            sun_theta as int,
            sun_dir_y as int,
        ),
        rgb_fits(sky.a) && rgb_fits(sky.b) && rgb_fits(sky.c) && rgb_fits(sky.d) && rgb_fits(
            sky.e,
        ) && rgb_fits(sky.f) && rgb_fits(sky.g) && rgb_fits(sky.h) && rgb_fits(sky.i) && rgb_fits(
            sky.z,
        ),
{
    let pr = solve_channel(r_co, r_rad, turbidity, albedo.r, sun_theta);
    let pg = solve_channel(g_co, g_rad, turbidity, albedo.g, sun_theta);
    let pb = solve_channel(b_co, b_rad, turbidity, albedo.b, sun_theta);
    let raw_z = Rgb { r: pr.z, g: pg.z, b: pb.z };
    let z = normalize_z(raw_z, &pr, &pg, &pb, sun_theta, sun_dir_y);
    SkyParams {
        a: Rgb { r: pr.a, g: pg.a, b: pb.a },
        b: Rgb { r: pr.b, g: pg.b, b: pb.b },
        c: Rgb { r: pr.c, g: pg.c, b: pb.c },
        d: Rgb { r: pr.d, g: pg.d, b: pb.d },
        e: Rgb { r: pr.e, g: pg.e, b: pb.e },
        f: Rgb { r: pr.f, g: pg.f, b: pb.f },
        g: Rgb { r: pr.g, g: pg.g, b: pb.g },
        h: Rgb { r: pr.h, g: pg.h, b: pb.h },
        i: Rgb { r: pr.i, g: pg.i, b: pb.i },
        z,
    }
}

} // verus!
