//! The closed-form Hosek-Wilkie radiance expression.
//!
//! Per channel:
//! `(1 + A*exp(B / (cosTheta + 0.01))) *`
//! `(C + D*exp(E*gamma) + F*cosGamma^2 + G*chi + I*sqrt(cosTheta))`
//! with `chi = (1 + cosGamma^2) / (1 + H^2 - 2*cosGamma*H)^1.5`.
//!
//! The `0.01` offset keeps the first denominator away from zero at the
//! horizon. `chi`'s denominator can still fall to zero at grazing geometry;
//! the fixed-point model floors it at one micro-unit, so the expression is
//! total and its result is always a well-formed (large but bounded) scalar.

use vstd::prelude::*;
use crate::fx::SCALE;
use crate::fx::fits;
use crate::fx::fx_add;
use crate::fx::fx_sub;
use crate::fx::fx_mul;
use crate::fx::fx_div;
use crate::fx::fadd;
use crate::fx::fsub;
use crate::fx::fmul;
use crate::fx::fdiv;
use crate::approx::sqrt_floor;
use crate::approx::fx_exp;
use crate::approx::fxsqrt;
use crate::approx::fxexp;
use crate::solver::ChannelParams;
use crate::solver::channel_params_fit;
use crate::solver::Rgb;

verus! {

/// The offset added to `cosTheta` in the first exponential's denominator.
pub const EPSILON: i64 = 10_000;

/// The anisotropy term `chi`: `(1 + cosGamma^2)` over the mirrored-peak
/// denominator raised to the power 3/2, the latter floored at one
/// micro-unit to keep the division defined at grazing alignment.
pub open spec fn spec_chi(cos_gamma: int, h: int) -> int {
    let cg2 = fx_mul(cos_gamma, cos_gamma);
    let hh1 = fx_add(fx_mul(h, h), SCALE as int);
    let den = fx_sub(hh1, fx_mul(fx_add(cos_gamma, cos_gamma), h));
    let den_c = if den < 0 {
        0
    } else {
        den
    };
    let pw = fx_mul(den_c, sqrt_floor(den_c));
    let pw_c = if pw < 1 {
        1
    } else {
        pw
    };
    fx_div(fx_add(SCALE as int, cg2), pw_c)
}

/// The radiance of one channel at the given view/sun geometry.
pub open spec fn spec_radiance_channel(
    cos_theta: int,
    gamma: int,
    cos_gamma: int,
    p: ChannelParams,
) -> int {
    let cg2 = fx_mul(cos_gamma, cos_gamma);
    let chi = spec_chi(cos_gamma, p.h as int);
    let lhs = fx_add(fx_mul(p.a as int, fx_exp(fx_div(p.b as int, fx_add(cos_theta, EPSILON as int)))), SCALE as int);
    let ct = if cos_theta < 0 {
        0
    } else {
        cos_theta
    };
    let rhs = fx_add(
        fx_add(
            fx_add(fx_add(p.c as int, fx_mul(p.d as int, fx_exp(fx_mul(p.e as int, gamma)))), fx_mul(p.f as int, cg2)),
            fx_mul(p.g as int, chi),
        ),
        fx_mul(p.i as int, sqrt_floor(ct)),
    );
    fx_mul(lhs, rhs)
}

/// Evaluate one channel of the radiance formula.
pub fn radiance_channel(cos_theta: i64, gamma: i64, cos_gamma: i64, p: &ChannelParams) -> (r: i64)
    requires
        0 <= cos_theta <= SCALE,
        fits(gamma as int),
        -SCALE <= cos_gamma <= SCALE,
        channel_params_fit(*p),
    ensures
        r == spec_radiance_channel(cos_theta as int, gamma as int, cos_gamma as int, *p),
        fits(r as int),
{
    let cg2: i64 = fmul(cos_gamma, cos_gamma);
    // chi's denominator: 1 + H^2 - 2*cosGamma*H, floored at zero before the
    // square root and at one micro-unit before the division.
    let hh1: i64 = fadd(fmul(p.h, p.h), SCALE);
    let den: i64 = fsub(hh1, fmul(fadd(cos_gamma, cos_gamma), p.h));
    let den_c: i64 = if den < 0 {
        0
    } else {
        den
    };
    let pw: i64 = fmul(den_c, fxsqrt(den_c));
    let pw_c: i64 = if pw < 1 {
        1
    } else {
        pw
    };
    let chi: i64 = fdiv(fadd(SCALE, cg2), pw_c);
    let lhs: i64 = fadd(fmul(p.a, fxexp(fdiv(p.b, fadd(cos_theta, EPSILON)))), SCALE);
    // The formula takes the square root of cosTheta floored at zero; inside
    // the contract's domain the floor is already established.
    let ct: i64 = if cos_theta < 0 {
        0
    } else {
        cos_theta
    };
    let rhs: i64 = fadd(
        fadd(
            fadd(fadd(p.c, fmul(p.d, fxexp(fmul(p.e, gamma)))), fmul(p.f, cg2)),
            fmul(p.g, chi),
        ),
        fmul(p.i, fxsqrt(ct)),
    );
    fmul(lhs, rhs)
}

/// Evaluate the radiance formula on all three channels.
pub fn hosek_wilkie(
    cos_theta: i64,
    gamma: i64,
    cos_gamma: i64,
    pr: &ChannelParams,
    pg: &ChannelParams,
    pb: &ChannelParams,
) -> (s: Rgb)
    requires
        0 <= cos_theta <= SCALE,
        fits(gamma as int),
        -SCALE <= cos_gamma <= SCALE,
        channel_params_fit(*pr),
        channel_params_fit(*pg),
        channel_params_fit(*pb),
    ensures
        s.r == spec_radiance_channel(cos_theta as int, gamma as int, cos_gamma as int, *pr),
        s.g == spec_radiance_channel(cos_theta as int, gamma as int, cos_gamma as int, *pg),
        s.b == spec_radiance_channel(cos_theta as int, gamma as int, cos_gamma as int, *pb),
        fits(s.r as int) && fits(s.g as int) && fits(s.b as int),
{
    Rgb {
        r: radiance_channel(cos_theta, gamma, cos_gamma, pr),
        g: radiance_channel(cos_theta, gamma, cos_gamma, pg),
        b: radiance_channel(cos_theta, gamma, cos_gamma, pb),
    }
}

} // verus!
