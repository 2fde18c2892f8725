//! Fixed-point scalar arithmetic.
//!
//! A coordinate is an `i64` counting millionths of a unit, so the value
//! `1.5` is stored as `1_500_000`.  Multiplication and division rescale by
//! `SCALE` with truncation toward zero, and every operation saturates at
//! the `i64` range instead of overflowing.

use vstd::prelude::*;

verus! {

/// Number of fixed-point units in one: coordinates count millionths.
pub const SCALE: i64 = 1_000_000;

/// The fixed-point representation of one.
pub open spec fn spec_one() -> int {
    1_000_000
}

pub open spec fn spec_abs(a: int) -> int {
    if a >= 0 {
        a
    } else {
        -a
    }
}

/// Division truncating toward zero, as machine division does.
pub open spec fn spec_tdiv(a: int, b: int) -> int {
    if (a >= 0) == (b >= 0) {
        spec_abs(a) / spec_abs(b)
    } else {
        -(spec_abs(a) / spec_abs(b))
    }
}

/// Saturate a mathematical integer into the `i64` range.
pub open spec fn spec_clip(v: int) -> i64 {
    if v > i64::MAX {
        i64::MAX
    } else if v < i64::MIN {
        i64::MIN
    } else {
        v as i64
    }
}

/// Fixed-point sum: exact, then saturated.
pub open spec fn spec_fadd(a: i64, b: i64) -> i64 {
    spec_clip(a + b)
}

/// Fixed-point difference: exact, then saturated.
pub open spec fn spec_fsub(a: i64, b: i64) -> i64 {
    spec_clip(a - b)
}

/// Fixed-point product: rescaled by `SCALE` truncating toward zero,
/// then saturated.
pub open spec fn spec_fmul(a: i64, b: i64) -> i64 {
    spec_clip(spec_tdiv(a * b, spec_one()))
}

/// Fixed-point quotient: zero when the divisor is zero (the library's
/// convention for degenerate homogeneous coordinates), otherwise rescaled
/// by `SCALE` truncating toward zero, then saturated.
pub open spec fn spec_fdiv(a: i64, b: i64) -> i64 {
    if b == 0 {
        0
    } else {
        spec_clip(spec_tdiv(a * spec_one(), b as int))
    }
}

/// Truncated division on machine integers; quotient magnitudes are taken
/// on unsigned values so the sign logic is explicit.
fn tdiv_i128(p: i128, d: i128) -> (r: i128)
    requires
        d != 0,
        p > i128::MIN,
        d > i128::MIN,
    ensures
        r == spec_tdiv(p as int, d as int),
{
    let p_neg: bool = p < 0;
    let d_neg: bool = d < 0;
    let p_mag: u128 = if p_neg {
        (-p) as u128
    } else {
        p as u128
    };
    let d_mag: u128 = if d_neg {
        (-d) as u128
    } else {
        d as u128
    };
    let q: u128 = p_mag / d_mag;
    assert(q <= p_mag);
    if p_neg == d_neg {
        q as i128
    } else {
        -(q as i128)
    }
}

/// Saturate a wide intermediate into an `i64`.
pub(crate) fn clip_i128(v: i128) -> (r: i64)
    ensures
        r == spec_clip(v as int),
{
    if v > i64::MAX as i128 {
        i64::MAX
    } else if v < i64::MIN as i128 {
        i64::MIN
    } else {
        v as i64
    }
}

/// Truncated division of an `i64` by a positive divisor.
pub fn tdiv_i64(a: i64, b: i64) -> (r: i64)
    requires
        b >= 2,
    ensures
        r == spec_tdiv(a as int, b as int),
{
    let q = tdiv_i128(a as i128, b as i128);
    proof {
        let am = spec_abs(a as int);
        let bi = b as int;
        vstd::arithmetic::div_mod::lemma_fundamental_div_mod(am, bi);
        vstd::arithmetic::div_mod::lemma_mod_division_less_than_divisor(am, bi);
        vstd::arithmetic::div_mod::lemma_div_pos_is_pos(am, bi);
        assert(2 * (am / bi) <= bi * (am / bi)) by (nonlinear_arith)
            requires
                bi >= 2,
                am / bi >= 0,
        ;
    }
    q as i64
}

/// Saturating fixed-point addition.
pub fn fadd(a: i64, b: i64) -> (r: i64)
    ensures
        r == spec_fadd(a, b),
{
    clip_i128(a as i128 + b as i128)
}

/// Saturating fixed-point subtraction.
pub fn fsub(a: i64, b: i64) -> (r: i64)
    ensures
        r == spec_fsub(a, b),
{
    clip_i128(a as i128 - b as i128)
}

proof fn lemma_mul_i64_in_i128(a: int, b: int)
    requires
        -0x8000_0000_0000_0000 <= a <= 0x7FFF_FFFF_FFFF_FFFF,
        -0x8000_0000_0000_0000 <= b <= 0x7FFF_FFFF_FFFF_FFFF,
    ensures
        -0x4000_0000_0000_0000_0000_0000_0000_0000 <= a * b
            <= 0x4000_0000_0000_0000_0000_0000_0000_0000,
{
    assert(-0x4000_0000_0000_0000_0000_0000_0000_0000 <= a * b
        <= 0x4000_0000_0000_0000_0000_0000_0000_0000) by (nonlinear_arith)
        requires
            -0x8000_0000_0000_0000 <= a <= 0x7FFF_FFFF_FFFF_FFFF,
            -0x8000_0000_0000_0000 <= b <= 0x7FFF_FFFF_FFFF_FFFF,
    ;
}

/// Saturating fixed-point multiplication.
pub fn fmul(a: i64, b: i64) -> (r: i64)
    ensures
        r == spec_fmul(a, b),
{
    proof {
        lemma_mul_i64_in_i128(a as int, b as int);
    }
    let p: i128 = a as i128 * b as i128;
    let q: i128 = tdiv_i128(p, 1_000_000);
    clip_i128(q)
}

/// Saturating fixed-point division; division by zero yields zero.
pub fn fdiv(a: i64, b: i64) -> (r: i64)
    ensures
        r == spec_fdiv(a, b),
{
    if b == 0 {
        0
    } else {
        let p: i128 = a as i128 * 1_000_000;
        let q: i128 = tdiv_i128(p, b as i128);
        clip_i128(q)
    }
}

/// Rescaling by `SCALE` is exact on products with `SCALE` itself.
pub proof fn lemma_tdiv_scale(x: i64)
    ensures
        spec_tdiv(x * 1_000_000, 1_000_000) == x,
{
    if x >= 0 {
        vstd::arithmetic::div_mod::lemma_div_multiples_vanish(x as int, 1_000_000);
    } else {
        vstd::arithmetic::div_mod::lemma_div_multiples_vanish(-(x as int), 1_000_000);
    }
}

/// One is the multiplicative unit of the fixed-point product.
pub proof fn lemma_fmul_scale(x: i64)
    ensures
        spec_fmul(SCALE, x) == x,
        spec_fmul(x, SCALE) == x,
{
    lemma_tdiv_scale(x);
}

/// One is the unit divisor of the fixed-point quotient.
pub proof fn lemma_fdiv_scale(x: i64)
    ensures
        spec_fdiv(x, SCALE) == x,
{
    lemma_tdiv_scale(x);
}

} // verus!
