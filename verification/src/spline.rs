//! Quintic Bezier evaluation over a strided dataset slice.
//!
//! Six control points, drawn from a flat coefficient table at a fixed stride,
//! are blended with the degree-5 Bernstein weights `{1, 5, 10, 10, 5, 1}` at
//! an elevation parameter in the unit interval. The evaluation order of the
//! fixed-point products is part of the definition, stated by `spec_spline`.
//! At the ends of the parameter range the curve meets its first and last
//! control points exactly (`lemma_spline_endpoints`).

use vstd::prelude::*;
use crate::fx::SCALE;
use crate::fx::fits;
use crate::fx::all_fit;
use crate::fx::fx_add;
use crate::fx::fx_sub;
use crate::fx::fx_mul;
use crate::fx::fadd;
use crate::fx::fsub;
use crate::fx::fmul;
use crate::fx::lemma_fx_mul_one;
use crate::fx::lemma_fx_mul_zero;

verus! {

/// The value of the quintic Bernstein blend of the six control points
/// `ds[start + k * stride]` (k in 0..6) at parameter `t`, in saturating
/// fixed-point arithmetic.
pub open spec fn spec_spline(ds: Seq<i64>, start: int, stride: int, t: int) -> int {
    let om = fx_sub(SCALE as int, t);
    let om2 = fx_mul(om, om);
    let om3 = fx_mul(om2, om);
    let om4 = fx_mul(om3, om);
    let om5 = fx_mul(om4, om);
    let t2 = fx_mul(t, t);
    let t3 = fx_mul(t2, t);
    let t4 = fx_mul(t3, t);
    let t5 = fx_mul(t4, t);
    let term0 = fx_mul(om5, ds[start] as int);
    let term1 = fx_mul(5 * fx_mul(om4, t), ds[start + stride] as int);
    let term2 = fx_mul(10 * fx_mul(om3, t2), ds[start + 2 * stride] as int);
    let term3 = fx_mul(10 * fx_mul(om2, t3), ds[start + 3 * stride] as int);
    let term4 = fx_mul(5 * fx_mul(om, t4), ds[start + 4 * stride] as int);
    let term5 = fx_mul(t5, ds[start + 5 * stride] as int);
    fx_add(fx_add(fx_add(fx_add(fx_add(term0, term1), term2), term3), term4), term5)
}

/// Evaluate the quintic Bezier curve through six strided control points at
/// parameter `t` in the unit interval.
pub fn evaluate_spline(ds: &[i64], start: usize, stride: usize, t: i64) -> (r: i64)
    requires
        all_fit(ds@),
        0 <= t <= SCALE,
        stride >= 1,
        start + 5 * stride < ds@.len(),
    ensures
        r == spec_spline(ds@, start as int, stride as int, t as int),
        fits(r as int),
{
    let om: i64 = fsub(SCALE, t);
    let om2: i64 = fmul(om, om);
    let om3: i64 = fmul(om2, om);
    let om4: i64 = fmul(om3, om);
    let om5: i64 = fmul(om4, om);
    let t2: i64 = fmul(t, t);
    let t3: i64 = fmul(t2, t);
    let t4: i64 = fmul(t3, t);
    let t5: i64 = fmul(t4, t);
    let term0: i64 = fmul(om5, ds[start]);
    let term1: i64 = fmul(5 * fmul(om4, t), ds[start + stride]);
    let term2: i64 = fmul(10 * fmul(om3, t2), ds[start + 2 * stride]);
    let term3: i64 = fmul(10 * fmul(om2, t3), ds[start + 3 * stride]);
    let term4: i64 = fmul(5 * fmul(om, t4), ds[start + 4 * stride]);
    let term5: i64 = fmul(t5, ds[start + 5 * stride]);
    fadd(fadd(fadd(fadd(fadd(term0, term1), term2), term3), term4), term5)
}

/// Bernstein boundary property: at parameter zero the curve is exactly the
/// first control point, and at parameter one exactly the last.
pub proof fn lemma_spline_endpoints(ds: Seq<i64>, start: int, stride: int)
    requires
        all_fit(ds),
        stride >= 1,
        0 <= start,
        start + 5 * stride < ds.len(),
    ensures
        spec_spline(ds, start, stride, 0) == ds[start] as int,
        spec_spline(ds, start, stride, SCALE as int) == ds[start + 5 * stride] as int,
{
    let s = SCALE as int;
    lemma_fx_mul_one(s);
    assert(fx_mul(s, s) == s);
    lemma_fx_mul_zero(0);
    assert(fx_mul(0, 0) == 0);
    // Parameter zero: the one-minus-t powers are all one, the t powers zero.
    lemma_fx_mul_one(ds[start] as int);
    lemma_fx_mul_zero(fx_mul(s, 0));
    lemma_fx_mul_zero(ds[start + stride] as int);
    lemma_fx_mul_zero(ds[start + 2 * stride] as int);
    lemma_fx_mul_zero(ds[start + 3 * stride] as int);
    lemma_fx_mul_zero(ds[start + 4 * stride] as int);
    lemma_fx_mul_zero(ds[start + 5 * stride] as int);
    assert(spec_spline(ds, start, stride, 0) == ds[start] as int);
    // Parameter one: the roles are exchanged.
    lemma_fx_mul_zero(s);
    lemma_fx_mul_one(ds[start + 5 * stride] as int);
    lemma_fx_mul_zero(ds[start] as int);
    assert(spec_spline(ds, start, stride, s) == ds[start + 5 * stride] as int);
}

} // verus!
