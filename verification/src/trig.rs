//! Fixed-point sine and cosine for the rotation commands.
//!
//! The angle is a fixed-point count of radians.  It is reduced modulo a
//! full turn, folded into the quarter-turn nearest zero, and evaluated
//! there by a short Taylor polynomial in fixed-point arithmetic.  The
//! functions are exact with respect to this definition (the contracts pin
//! every bit); as an approximation of the mathematical sine and cosine
//! the reduced-range polynomial is accurate to a few millionths.

use vstd::prelude::*;

use crate::fixed::{fadd, fmul, fsub, spec_fadd, spec_fmul, spec_fsub, spec_tdiv, tdiv_i64};

verus! {

/// A full turn, in fixed-point radians.
pub const TWO_PI_FP: i64 = 6_283_185;

/// Half a turn.
pub const PI_FP: i64 = 3_141_592;

/// A quarter turn.
pub const HALF_PI_FP: i64 = 1_570_796;

/// An eighth of a turn.
pub const QUARTER_PI_FP: i64 = 785_398;

/// The angle reduced to the half-open turn `[-PI_FP, PI_FP)`, up to the
/// truncation of the stored constants.
pub open spec fn spec_reduce_turn(theta: i64) -> i64 {
    let r = theta - TWO_PI_FP * spec_tdiv(theta as int, TWO_PI_FP as int);
    let norm = if r < 0 {
        r + TWO_PI_FP
    } else {
        r
    };
    if norm >= PI_FP {
        (norm - TWO_PI_FP) as i64
    } else {
        norm as i64
    }
}

/// Which quarter turn `t` rounds to; `t` comes from `spec_reduce_turn`.
pub open spec fn spec_quadrant(t: i64) -> int {
    if t >= 0 {
        spec_tdiv(t + QUARTER_PI_FP, HALF_PI_FP as int)
    } else {
        spec_tdiv(t - QUARTER_PI_FP, HALF_PI_FP as int)
    }
}

/// Taylor polynomial for sine on the folded quarter turn.
pub open spec fn spec_poly_sin(t: i64) -> i64 {
    let t2 = spec_fmul(t, t);
    let c1 = spec_fsub(8_333, spec_fmul(t2, 198));
    let c2 = spec_fsub(166_667, spec_fmul(t2, c1));
    let c3 = spec_fsub(1_000_000, spec_fmul(t2, c2));
    spec_fmul(t, c3)
}

/// Taylor polynomial for cosine on the folded quarter turn.
pub open spec fn spec_poly_cos(t: i64) -> i64 {
    let t2 = spec_fmul(t, t);
    let c1 = spec_fsub(41_667, spec_fmul(t2, 1_389));
    let c2 = spec_fsub(500_000, spec_fmul(t2, c1));
    spec_fsub(1_000_000, spec_fmul(t2, c2))
}

/// Fixed-point sine and cosine of the angle, by reduction and the
/// polynomials above.
pub open spec fn spec_sin_cos(theta: i64) -> (i64, i64) {
    let t = spec_reduce_turn(theta);
    let k = spec_quadrant(t);
    let f = (t - k * HALF_PI_FP) as i64;
    let s = spec_poly_sin(f);
    let c = spec_poly_cos(f);
    if k == 0 {
        (s, c)
    } else if k == 1 {
        (c, spec_fsub(0, s))
    } else if k == -1 {
        (spec_fsub(0, c), s)
    } else {
        (spec_fsub(0, s), spec_fsub(0, c))
    }
}

fn reduce_turn(theta: i64) -> (r: i64)
    ensures
        r == spec_reduce_turn(theta),
        -PI_FP - 1 <= r < PI_FP,
{
    let q = tdiv_i64(theta, TWO_PI_FP);
    proof {
        let ti = theta as int;
        let b = TWO_PI_FP as int;
        let am = crate::fixed::spec_abs(ti);
        vstd::arithmetic::div_mod::lemma_fundamental_div_mod(am, b);
        vstd::arithmetic::div_mod::lemma_mod_division_less_than_divisor(am, b);
        vstd::arithmetic::div_mod::lemma_div_pos_is_pos(am, b);
    }
    let rem = theta - TWO_PI_FP * q;
    let norm = if rem < 0 {
        rem + TWO_PI_FP
    } else {
        rem
    };
    if norm >= PI_FP {
        norm - TWO_PI_FP
    } else {
        norm
    }
}

fn poly_sin(t: i64) -> (r: i64)
    ensures
        r == spec_poly_sin(t),
{
    let t2 = fmul(t, t);
    let c1 = fsub(8_333, fmul(t2, 198));
    let c2 = fsub(166_667, fmul(t2, c1));
    let c3 = fsub(1_000_000, fmul(t2, c2));
    fmul(t, c3)
}

fn poly_cos(t: i64) -> (r: i64)
    ensures
        r == spec_poly_cos(t),
{
    let t2 = fmul(t, t);
    let c1 = fsub(41_667, fmul(t2, 1_389));
    let c2 = fsub(500_000, fmul(t2, c1));
    fsub(1_000_000, fmul(t2, c2))
}

/// Fixed-point sine and cosine of a fixed-point angle in radians.
pub fn sin_cos(theta: i64) -> (r: (i64, i64))
    ensures
        r == spec_sin_cos(theta),
{
    let t = reduce_turn(theta);
    let x = if t >= 0 {
        t + QUARTER_PI_FP
    } else {
        t - QUARTER_PI_FP
    };
    let k = tdiv_i64(x, HALF_PI_FP);
    proof {
        let am = crate::fixed::spec_abs(x as int);
        let bi = HALF_PI_FP as int;
        vstd::arithmetic::div_mod::lemma_fundamental_div_mod(am, bi);
        vstd::arithmetic::div_mod::lemma_mod_division_less_than_divisor(am, bi);
        vstd::arithmetic::div_mod::lemma_div_pos_is_pos(am, bi);
        assert(am < 3 * bi);
        assert(-2 <= k <= 2);
    }
    let f = t - k * HALF_PI_FP;
    let s = poly_sin(f);
    let c = poly_cos(f);
    if k == 0 {
        (s, c)
    } else if k == 1 {
        (c, fsub(0, s))
    } else if k == -1 {
        (fsub(0, c), s)
    } else {
        (fsub(0, s), fsub(0, c))
    }
}

} // verus!
