//! Fixed-point scalar arithmetic for the sky model.
//!
//! Every quantity the solver touches is a signed 64-bit count of micro-units:
//! the value `1.0` of the published model is `SCALE` (one million). The four
//! arithmetic operations saturate at `SAT` instead of overflowing, and
//! products and quotients round toward zero, so each operation is total and
//! its exact result is stated by a spec function.

use vstd::prelude::*;

verus! {

/// Micro-units per 1.0 of the model: all scalars are `value * SCALE`.
pub const SCALE: i64 = 1_000_000;

/// Saturation bound of the arithmetic (one billion in model units).
pub const SAT: i64 = 1_000_000_000_000_000;

/// A scalar is well-formed when it lies inside the saturation range.
pub open spec fn fits(x: int) -> bool {
    -(SAT as int) <= x <= SAT as int
}

/// Every entry of a dataset sequence is a well-formed scalar.
pub open spec fn all_fit(s: Seq<i64>) -> bool {
    forall|i: int| 0 <= i < s.len() ==> fits(s[i] as int)
}

/// Division rounding toward zero, defined for positive divisors.
pub open spec fn tdiv(a: int, b: int) -> int {
    if a >= 0 {
        a / b
    } else {
        -((-a) / b)
    }
}

/// Clip a value into the saturation range.
pub open spec fn sat_clip(x: int) -> int {
    if x > SAT as int {
        SAT as int
    } else if x < -(SAT as int) {
        -(SAT as int)
    } else {
        x
    }
}

/// Saturating fixed-point sum.
pub open spec fn fx_add(a: int, b: int) -> int {
    sat_clip(a + b)
}

/// Saturating fixed-point difference.
pub open spec fn fx_sub(a: int, b: int) -> int {
    sat_clip(a - b)
}

/// Saturating fixed-point product: `a * b` descaled, rounded toward zero.
pub open spec fn fx_mul(a: int, b: int) -> int {
    sat_clip(tdiv(a * b, SCALE as int))
}

/// Saturating fixed-point quotient (positive divisors): `a / b` rescaled.
pub open spec fn fx_div(a: int, b: int) -> int {
    sat_clip(tdiv(a * (SCALE as int), b))
}

/// Restrict a value to a range.
pub fn clamp(value: i64, lo: i64, hi: i64) -> (r: i64)
    requires
        lo <= hi,
    ensures
        r == if value < lo { lo as int } else if value > hi { hi as int } else { value as int },
        lo <= r <= hi,
{
    if value < lo {
        lo
    } else if value > hi {
        hi
    } else {
        value
    }
}

/// The smaller of two values.
pub fn min(value: i64, bound: i64) -> (r: i64)
    ensures
        r == if value < bound { value as int } else { bound as int },
        r <= value && r <= bound,
{
    if value < bound {
        value
    } else {
        bound
    }
}

/// Saturating addition on well-formed scalars.
pub fn fadd(a: i64, b: i64) -> (r: i64)
    requires
        fits(a as int),
        fits(b as int),
    ensures
        r == fx_add(a as int, b as int),
        fits(r as int),
{
    let s: i64 = a + b;
    if s > SAT {
        SAT
    } else if s < -SAT {
        -SAT
    } else {
        s
    }
}

/// Saturating subtraction on well-formed scalars.
pub fn fsub(a: i64, b: i64) -> (r: i64)
    requires
        fits(a as int),
        fits(b as int),
    ensures
        r == fx_sub(a as int, b as int),
        fits(r as int),
{
    let s: i64 = a - b;
    if s > SAT {
        SAT
    } else if s < -SAT {
        -SAT
    } else {
        s
    }
}

/// The magnitude of a well-formed scalar.
fn fx_abs(a: i64) -> (r: i64)
    requires
        fits(a as int),
    ensures
        r == if a < 0 { -(a as int) } else { a as int },
        0 <= r <= SAT,
{
    if a < 0 {
        -a
    } else {
        a
    }
}

/// Magnitudes multiply: `|a| * |b| == |a * b|`.
proof fn lemma_abs_mul(a: int, b: int, ma: int, mb: int)
    requires
        ma == if a < 0 { -a } else { a },
        mb == if b < 0 { -b } else { b },
    ensures
        ma * mb == if a * b < 0 { -(a * b) } else { a * b },
        (a * b < 0) == ((a < 0) != (b < 0) && ma * mb != 0),
{
    assert(ma * mb == if a * b < 0 { -(a * b) } else { a * b }) by (nonlinear_arith)
        requires
            ma == if a < 0 { -a } else { a },
            mb == if b < 0 { -b } else { b },
    ;
    assert((a * b < 0) == ((a < 0) != (b < 0) && ma * mb != 0)) by (nonlinear_arith)
        requires
            ma == if a < 0 { -a } else { a },
            mb == if b < 0 { -b } else { b },
    ;
}

/// Dividing a nonnegative value by a positive one cannot grow it.
proof fn lemma_div_shrinks(p: int, d: int)
    requires
        p >= 0,
        d >= 1,
    ensures
        0 <= p / d <= p,
{
    assert(0 <= p / d <= p) by (nonlinear_arith)
        requires
            p >= 0,
            d >= 1,
    ;
}

/// Saturating product of well-formed scalars.
pub fn fmul(a: i64, b: i64) -> (r: i64)
    requires
        fits(a as int),
        fits(b as int),
    ensures
        r == fx_mul(a as int, b as int),
        fits(r as int),
        a >= 0 && b >= 0 ==> r >= 0,
        0 <= a <= SCALE && 0 <= b <= SCALE ==> 0 <= r <= SCALE,
{
    let neg: bool = (a < 0) != (b < 0);
    let ma: i64 = fx_abs(a);
    let mb: i64 = fx_abs(b);
    proof {
        assert(ma as int * mb as int <= SAT as int * SAT as int) by (nonlinear_arith)
            requires
                0 <= ma as int <= SAT as int,
                0 <= mb as int <= SAT as int,
        ;
    }
    let p: u128 = (ma as u128) * (mb as u128);
    let q: u128 = p / (SCALE as u128);
    proof {
        lemma_abs_mul(a as int, b as int, ma as int, mb as int);
        lemma_div_shrinks(p as int, SCALE as int);
        assert(q == tdiv(ma as int * mb as int, SCALE as int));
    }
    let qc: i64 = if q > (SAT as u128) {
        SAT
    } else {
        q as i64
    };
    proof {
        assert(qc == sat_clip(tdiv(ma as int * mb as int, SCALE as int)));
        if neg {
            assert(tdiv(a as int * b as int, SCALE as int) == -tdiv(
                ma as int * mb as int,
                SCALE as int,
            ));
        } else {
            assert(tdiv(a as int * b as int, SCALE as int) == tdiv(
                ma as int * mb as int,
                SCALE as int,
            ));
        }
    }
    proof {
        if 0 <= a <= SCALE && 0 <= b <= SCALE {
            assert(ma as int * mb as int <= SCALE as int * SCALE as int) by (nonlinear_arith)
                requires
                    0 <= ma as int <= SCALE as int,
                    0 <= mb as int <= SCALE as int,
            ;
            assert(p / (SCALE as u128) <= SCALE as u128) by (nonlinear_arith)
                requires
                    0 <= p <= SCALE as int * SCALE as int,
            ;
        }
    }
    if neg {
        -qc
    } else {
        qc
    }
}

/// Saturating quotient of a well-formed scalar by a positive one.
pub fn fdiv(a: i64, b: i64) -> (r: i64)
    requires
        fits(a as int),
        fits(b as int),
        b > 0,
    ensures
        r == fx_div(a as int, b as int),
        fits(r as int),
        a >= 0 ==> r >= 0,
{
    let neg: bool = a < 0;
    let ma: i64 = fx_abs(a);
    let p: u128 = (ma as u128) * (SCALE as u128);
    let q: u128 = p / (b as u128);
    proof {
        lemma_abs_mul(a as int, SCALE as int, ma as int, SCALE as int);
        lemma_div_shrinks(p as int, b as int);
        assert(q == tdiv(ma as int * (SCALE as int), b as int));
    }
    let qc: i64 = if q > (SAT as u128) {
        SAT
    } else {
        q as i64
    };
    proof {
        assert(qc == sat_clip(tdiv(ma as int * (SCALE as int), b as int)));
        if neg {
            assert(tdiv(a as int * (SCALE as int), b as int) == -tdiv(
                ma as int * (SCALE as int),
                b as int,
            ));
        }
    }
    if neg {
        -qc
    } else {
        qc
    }
}

/// A truncating quotient stays within the dividend's magnitude.
pub proof fn lemma_tdiv_in_magnitude(a: int, d: int)
    requires
        d >= 1,
    ensures
        a >= 0 ==> 0 <= tdiv(a, d) <= a,
        a < 0 ==> a <= tdiv(a, d) <= 0,
{
    if a >= 0 {
        lemma_div_shrinks(a, d);
    } else {
        lemma_div_shrinks(-a, d);
    }
}

/// Multiplying by the scalar one (`SCALE`) is exact.
pub proof fn lemma_fx_mul_one(x: int)
    requires
        fits(x),
    ensures
        fx_mul(x, SCALE as int) == x,
        fx_mul(SCALE as int, x) == x,
{
    assert(x * (SCALE as int) == (SCALE as int) * x) by (nonlinear_arith);
    if x >= 0 {
        vstd::arithmetic::div_mod::lemma_div_multiples_vanish(x, SCALE as int);
    } else {
        vstd::arithmetic::div_mod::lemma_div_multiples_vanish(-x, SCALE as int);
        assert(-(x * (SCALE as int)) == (SCALE as int) * (-x)) by (nonlinear_arith);
    }
}

/// Multiplying by zero gives zero.
pub proof fn lemma_fx_mul_zero(x: int)
    ensures
        fx_mul(x, 0) == 0,
        fx_mul(0, x) == 0,
{
    assert(x * 0 == 0) by (nonlinear_arith);
    assert(0 * x == 0) by (nonlinear_arith);
}

/// Truncating division of a scalar by a small positive integer count
/// (the divisor is a plain number, not a scaled scalar).
pub fn idivp(a: i64, k: i64) -> (r: i64)
    requires
        fits(a as int),
        k >= 1,
    ensures
        r == tdiv(a as int, k as int),
        fits(r as int),
        a >= 0 ==> r >= 0,
{
    let neg: bool = a < 0;
    let ma: i64 = fx_abs(a);
    let q: u64 = (ma as u64) / (k as u64);
    proof {
        lemma_div_shrinks(ma as int, k as int);
    }
    let qi: i64 = q as i64;
    if neg {
        -qi
    } else {
        qi
    }
}

} // verus!
