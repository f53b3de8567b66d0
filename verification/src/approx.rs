//! Nonlinear scalar functions of the sky model: square root, cube root,
//! exponential and cosine over the fixed-point domain.
//!
//! The roots are exact integer roots of the rescaled argument. The
//! exponential and cosine are the model's own truncated-series schemes; their
//! contracts state the computed value exactly, as a spec function.

use vstd::prelude::*;
use crate::fx::SCALE;
use crate::fx::SAT;
use crate::fx::fits;
use crate::fx::tdiv;
use crate::fx::fx_add;
use crate::fx::fx_sub;
use crate::fx::fx_mul;
use crate::fx::fadd;
use crate::fx::fsub;
use crate::fx::fmul;
use crate::fx::idivp;

verus! {

/// Half pi in micro-units: the zenith angle of the horizon.
pub const HALF_PI: i64 = 1_570_796;

/// Arguments at or beyond this magnitude saturate the exponential.
pub const EXP_MAX: i64 = 21_000_000;

/// Euler's number in micro-units.
pub const E_FX: i64 = 2_718_281;

/// The reciprocal of Euler's number in micro-units.
pub const E_INV: i64 = 367_879;

/// The fixed-point square root of `x`, rounded down: the unique `r` with
/// `r * r <= x * SCALE < (r + 1) * (r + 1)`.
pub open spec fn sqrt_floor(x: int) -> int {
    choose|r: int|
        #![trigger r * r]
        0 <= r && r * r <= x * (SCALE as int) && x * (SCALE as int) < (r + 1) * (r + 1)
}

/// The fixed-point cube root of a unit-interval `x`, rounded down: the
/// unique `r` with `r^3 <= x * SCALE^2 < (r + 1)^3`.
pub open spec fn cbrt_floor(x: int) -> int {
    choose|r: int|
        #![trigger r * r * r]
        0 <= r && r * r * r <= x * (SCALE as int) * (SCALE as int) && x * (SCALE as int) * (
        SCALE as int) < (r + 1) * (r + 1) * (r + 1)
}

/// A value with the square-root bracketing property is `sqrt_floor`.
proof fn lemma_sqrt_floor_is(x: int, r: int)
    requires
        0 <= r,
        r * r <= x * (SCALE as int),
        x * (SCALE as int) < (r + 1) * (r + 1),
    ensures
        sqrt_floor(x) == r,
{
    let xs = x * (SCALE as int);
    assert(exists|q: int|
        #![trigger q * q]
        0 <= q && q * q <= x * (SCALE as int) && x * (SCALE as int) < (q + 1) * (q + 1)) by {
        assert(0 <= r && r * r <= x * (SCALE as int) && x * (SCALE as int) < (r + 1) * (r + 1));
    }
    let c = sqrt_floor(x);
    assert(0 <= c && c * c <= xs && xs < (c + 1) * (c + 1));
    assert(c == r) by (nonlinear_arith)
        requires
            0 <= r,
            0 <= c,
            r * r <= xs,
            xs < (r + 1) * (r + 1),
            c * c <= xs,
            xs < (c + 1) * (c + 1),
    ;
}

/// A value with the cube-root bracketing property is `cbrt_floor`.
proof fn lemma_cbrt_floor_is(x: int, r: int)
    requires
        0 <= r,
        r * r * r <= x * (SCALE as int) * (SCALE as int),
        x * (SCALE as int) * (SCALE as int) < (r + 1) * (r + 1) * (r + 1),
    ensures
        cbrt_floor(x) == r,
{
    let xs = x * (SCALE as int) * (SCALE as int);
    assert(exists|q: int|
        #![trigger q * q * q]
        0 <= q && q * q * q <= x * (SCALE as int) * (SCALE as int) && x * (SCALE as int) * (
        SCALE as int) < (q + 1) * (q + 1) * (q + 1)) by {
        assert(0 <= r && r * r * r <= x * (SCALE as int) * (SCALE as int) && x * (SCALE as int)
            * (SCALE as int) < (r + 1) * (r + 1) * (r + 1));
    }
    let c = cbrt_floor(x);
    assert(0 <= c && c * c * c <= xs && xs < (c + 1) * (c + 1) * (c + 1));
    assert(c == r) by (nonlinear_arith)
        requires
            0 <= r,
            0 <= c,
            r * r * r <= xs,
            xs < (r + 1) * (r + 1) * (r + 1),
            c * c * c <= xs,
            xs < (c + 1) * (c + 1) * (c + 1),
    ;
}

/// Integer square root of the rescaled argument: the unique `r` with
/// `r * r <= x * SCALE < (r + 1) * (r + 1)`, which is the fixed-point
/// square root of `x` rounded down.
pub fn fxsqrt(x: i64) -> (r: i64)
    requires
        0 <= x <= SAT,
    ensures
        0 <= r <= SAT,
        r * r <= x * SCALE,
        x * SCALE < (r + 1) * (r + 1),
        r == sqrt_floor(x as int),
{
    proof {
        assert(x as int * (SCALE as int) <= SAT as int * (SCALE as int)) by (nonlinear_arith)
            requires
                0 <= x as int <= SAT as int,
        ;
    }
    let xs: u128 = (x as u128) * (SCALE as u128);
    let mut lo: u64 = 0;
    let mut hi: u64 = 40_000_000_000;
    proof {
        assert(xs < (hi as int) * (hi as int)) by (nonlinear_arith)
            requires
                xs == x as int * (SCALE as int),
                0 <= x <= SAT as int,
                hi == 40_000_000_000,
        ;
    }
    while lo + 1 < hi
        invariant
            lo < hi <= 40_000_000_000,
            xs == x as int * (SCALE as int),
            (lo as int) * (lo as int) <= xs,
            xs < (hi as int) * (hi as int),
        decreases hi - lo,
    {
        let mid: u64 = lo + (hi - lo) / 2;
        proof {
            assert((mid as int) * (mid as int) <= 40_000_000_000 * 40_000_000_000int)
                by (nonlinear_arith)
                requires
                    0 <= mid as int <= 40_000_000_000,
            ;
        }
        let sq: u128 = (mid as u128) * (mid as u128);
        if sq <= xs {
            lo = mid;
        } else {
            hi = mid;
        }
    }
    proof {
        lemma_sqrt_floor_is(x as int, lo as int);
    }
    lo as i64
}

/// Integer cube root of the twice-rescaled argument, for arguments in the
/// unit interval: the unique `r` with
/// `r^3 <= x * SCALE^2 < (r + 1)^3`, the fixed-point cube root rounded down.
pub fn fxcbrt(x: i64) -> (r: i64)
    requires
        0 <= x <= SCALE,
    ensures
        0 <= r <= SCALE,
        r * r * r <= x * SCALE * SCALE,
        x * SCALE * SCALE < (r + 1) * (r + 1) * (r + 1),
        r == cbrt_floor(x as int),
{
    proof {
        assert(x as int * (SCALE as int) * (SCALE as int) <= (SCALE as int) * (SCALE as int) * (
        SCALE as int)) by (nonlinear_arith)
            requires
                0 <= x as int <= SCALE as int,
        ;
    }
    let xs: u128 = (x as u128) * (SCALE as u128) * (SCALE as u128);
    let mut lo: u64 = 0;
    let mut hi: u64 = 1_000_001;
    proof {
        assert(xs < (hi as int) * (hi as int) * (hi as int)) by (nonlinear_arith)
            requires
                xs == x as int * (SCALE as int) * (SCALE as int),
                0 <= x <= SCALE as int,
                hi == 1_000_001,
        ;
    }
    while lo + 1 < hi
        invariant
            lo < hi <= 1_000_001,
            xs == x as int * (SCALE as int) * (SCALE as int),
            (lo as int) * (lo as int) * (lo as int) <= xs,
            xs < (hi as int) * (hi as int) * (hi as int),
        decreases hi - lo,
    {
        let mid: u64 = lo + (hi - lo) / 2;
        proof {
            assert((mid as int) * (mid as int) <= 1_000_001 * 1_000_001int) by (nonlinear_arith)
                requires
                    0 <= mid as int <= 1_000_001,
            ;
            assert((mid as int) * (mid as int) * (mid as int) <= 1_000_001 * 1_000_001
                * 1_000_001int) by (nonlinear_arith)
                requires
                    0 <= mid as int <= 1_000_001,
            ;
        }
        let cube: u128 = (mid as u128) * (mid as u128) * (mid as u128);
        if cube <= xs {
            lo = mid;
        } else {
            hi = mid;
        }
    }
    proof {
        assert(lo <= SCALE as int) by (nonlinear_arith)
            requires
                (lo as int) * (lo as int) * (lo as int) <= xs,
                xs <= (SCALE as int) * (SCALE as int) * (SCALE as int),
                lo >= 0,
        ;
        lemma_cbrt_floor_is(x as int, lo as int);
    }
    lo as i64
}

/// Horner stage `k` of the degree-7 Taylor series of the exponential on the
/// unit interval: stage 7 is one, and each earlier stage folds in one more
/// term of `r^i / i!`.
pub open spec fn exp_taylor(r: int, k: nat) -> int
    decreases 7 - k,
{
    if k >= 7 {
        SCALE as int
    } else {
        fx_add(SCALE as int, tdiv(fx_mul(r, exp_taylor(r, (k + 1) as nat)), (k + 1) as int))
    }
}

/// Repeated saturating multiplication: `v` scaled by `b` a total of `n` times.
pub open spec fn spow(v: int, b: int, n: nat) -> int
    decreases n,
{
    if n == 0 {
        v
    } else {
        fx_mul(spow(v, b, (n - 1) as nat), b)
    }
}

/// The model's exponential: saturated outside `(-EXP_MAX, EXP_MAX)`, and
/// otherwise the unit-interval Taylor series scaled by an integer power of
/// Euler's number.
pub open spec fn fx_exp(x: int) -> int {
    if x >= EXP_MAX as int {
        SAT as int
    } else if x <= -(EXP_MAX as int) {
        0
    } else {
        let q = x / (SCALE as int);
        let rem = x % (SCALE as int);
        if q >= 0 {
            spow(exp_taylor(rem, 0), E_FX as int, q as nat)
        } else {
            spow(exp_taylor(rem, 0), E_INV as int, (-q) as nat)
        }
    }
}

/// Evaluate the model's exponential.
pub fn fxexp(x: i64) -> (r: i64)
    requires
        fits(x as int),
    ensures
        r == fx_exp(x as int),
        0 <= r <= SAT,
{
    if x >= EXP_MAX {
        return SAT;
    }
    if x <= -EXP_MAX {
        return 0;
    }
    // Split the argument into an integer part and a unit-interval remainder.
    let q: i64 = if x >= 0 {
        ((x as u64) / (SCALE as u64)) as i64
    } else {
        let m: i64 = -x;
        let qd: u64 = ((m as u64) + (SCALE as u64) - 1) / (SCALE as u64);
        -(qd as i64)
    };
    proof {
        assert(q == x as int / (SCALE as int));
    }
    let rem: i64 = x - q * SCALE;
    proof {
        assert(rem == x as int % (SCALE as int));
    }
    // Taylor series on the remainder.
    let mut t: i64 = SCALE;
    let mut k: u64 = 7;
    while k > 0
        invariant
            k <= 7,
            0 <= rem < SCALE,
            0 <= t <= SAT,
            t == exp_taylor(rem as int, k as nat),
        decreases k,
    {
        t = fadd(SCALE, idivp(fmul(rem, t), k as i64));
        k = k - 1;
    }
    // Scale by the integer power of e.
    let mut v: i64 = t;
    if q >= 0 {
        let mut i: i64 = 0;
        while i < q
            invariant
                0 <= i <= q <= 21,
                0 <= v <= SAT,
                v == spow(t as int, E_FX as int, i as nat),
            decreases q - i,
        {
            v = fmul(v, E_FX);
            i = i + 1;
        }
    } else {
        let n: i64 = -q;
        let mut i: i64 = 0;
        while i < n
            invariant
                0 <= i <= n <= 21,
                0 <= v <= SAT,
                v == spow(t as int, E_INV as int, i as nat),
            decreases n - i,
        {
            v = fmul(v, E_INV);
            i = i + 1;
        }
    }
    v
}

/// The model's cosine polynomial: the degree-6 Taylor truncation
/// `1 - x^2/2 + x^4/24 - x^6/720` in saturating fixed point.
pub open spec fn cos_poly(x: int) -> int {
    let x2 = fx_mul(x, x);
    let x4 = fx_mul(x2, x2);
    let x6 = fx_mul(x4, x2);
    fx_sub(fx_add(fx_sub(SCALE as int, tdiv(x2, 2)), tdiv(x4, 24)), tdiv(x6, 720))
}

/// The model's cosine: the polynomial, clipped into the unit interval.
pub open spec fn fx_cos(x: int) -> int {
    if cos_poly(x) < 0 {
        0
    } else if cos_poly(x) > SCALE as int {
        SCALE as int
    } else {
        cos_poly(x)
    }
}

/// Evaluate the model's cosine on a first-quadrant angle.
pub fn fxcos(x: i64) -> (r: i64)
    requires
        0 <= x <= 2 * SCALE,
    ensures
        r == fx_cos(x as int),
        0 <= r <= SCALE,
{
    let x2: i64 = fmul(x, x);
    let x4: i64 = fmul(x2, x2);
    let x6: i64 = fmul(x4, x2);
    let p: i64 = fsub(fadd(fsub(SCALE, idivp(x2, 2)), idivp(x4, 24)), idivp(x6, 720));
    if p < 0 {
        0
    } else if p > SCALE {
        SCALE
    } else {
        p
    }
}

} // verus!
