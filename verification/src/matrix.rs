//! 3x3 homogeneous matrix utilities.
//!
//! Transforms are 3x3 matrices of fixed-point entries.  A stack of
//! transforms is composed left to right: the matrix pushed earliest is
//! applied first.  Points are transformed as homogeneous columns
//! `(x, y, 1)` with a division by the resulting `w` component, so
//! perspective rows are honored; for affine matrices `w` is one and the
//! division is exact.

use vstd::prelude::*;

use crate::fixed::{fadd, fdiv, fmul, spec_fadd, spec_fdiv, spec_fmul, SCALE};

verus! {

/// A 3x3 transform with fixed-point entries, row by row.
#[derive(Clone, Copy, Debug, PartialEq, Eq, Structural)]
pub struct Mat3 {
    pub m00: i64,
    pub m01: i64,
    pub m02: i64,
    pub m10: i64,
    pub m11: i64,
    pub m12: i64,
    pub m20: i64,
    pub m21: i64,
    pub m22: i64,
}

/// The identity transform.
pub open spec fn spec_mat_identity() -> Mat3 {
    Mat3 {
        m00: SCALE,
        m01: 0,
        m02: 0,
        m10: 0,
        m11: SCALE,
        m12: 0,
        m20: 0,
        m21: 0,
        m22: SCALE,
    }
}

/// Fixed-point dot product of a row and a column, summed left to right.
pub open spec fn spec_dot3(x0: i64, x1: i64, x2: i64, y0: i64, y1: i64, y2: i64) -> i64 {
    spec_fadd(spec_fadd(spec_fmul(x0, y0), spec_fmul(x1, y1)), spec_fmul(x2, y2))
}

/// Fixed-point matrix product `a * b`.
pub open spec fn spec_mat_mul(a: Mat3, b: Mat3) -> Mat3 {
    Mat3 {
        m00: spec_dot3(a.m00, a.m01, a.m02, b.m00, b.m10, b.m20),
        m01: spec_dot3(a.m00, a.m01, a.m02, b.m01, b.m11, b.m21),
        m02: spec_dot3(a.m00, a.m01, a.m02, b.m02, b.m12, b.m22),
        m10: spec_dot3(a.m10, a.m11, a.m12, b.m00, b.m10, b.m20),
        m11: spec_dot3(a.m10, a.m11, a.m12, b.m01, b.m11, b.m21),
        m12: spec_dot3(a.m10, a.m11, a.m12, b.m02, b.m12, b.m22),
        m20: spec_dot3(a.m20, a.m21, a.m22, b.m00, b.m10, b.m20),
        m21: spec_dot3(a.m20, a.m21, a.m22, b.m01, b.m11, b.m21),
        m22: spec_dot3(a.m20, a.m21, a.m22, b.m02, b.m12, b.m22),
    }
}

/// Left-to-right composition of a transform stack: the identity,
/// right-multiplied by each entry in push order.
pub open spec fn spec_compose(stack: Seq<Mat3>) -> Mat3
    decreases stack.len(),
{
    if stack.len() == 0 {
        spec_mat_identity()
    } else {
        spec_mat_mul(spec_compose(stack.drop_last()), stack.last())
    }
}

/// Transform of the homogeneous column `(x, y, 1)`, divided by the
/// resulting `w` component.
pub open spec fn spec_apply(m: Mat3, x: i64, y: i64) -> (i64, i64) {
    let nx = spec_dot3(m.m00, m.m01, m.m02, x, y, SCALE);
    let ny = spec_dot3(m.m10, m.m11, m.m12, x, y, SCALE);
    let w = spec_dot3(m.m20, m.m21, m.m22, x, y, SCALE);
    (spec_fdiv(nx, w), spec_fdiv(ny, w))
}

/// The identity transform.
pub fn mat_identity() -> (r: Mat3)
    ensures
        r == spec_mat_identity(),
{
    Mat3 { m00: SCALE, m01: 0, m02: 0, m10: 0, m11: SCALE, m12: 0, m20: 0, m21: 0, m22: SCALE }
}

fn dot3(x0: i64, x1: i64, x2: i64, y0: i64, y1: i64, y2: i64) -> (r: i64)
    ensures
        r == spec_dot3(x0, x1, x2, y0, y1, y2),
{
    fadd(fadd(fmul(x0, y0), fmul(x1, y1)), fmul(x2, y2))
}

/// Fixed-point matrix product `a * b`.
pub fn mat_mul(a: &Mat3, b: &Mat3) -> (r: Mat3)
    ensures
        r == spec_mat_mul(*a, *b),
{
    Mat3 {
        m00: dot3(a.m00, a.m01, a.m02, b.m00, b.m10, b.m20),
        m01: dot3(a.m00, a.m01, a.m02, b.m01, b.m11, b.m21),
        m02: dot3(a.m00, a.m01, a.m02, b.m02, b.m12, b.m22),
        m10: dot3(a.m10, a.m11, a.m12, b.m00, b.m10, b.m20),
        m11: dot3(a.m10, a.m11, a.m12, b.m01, b.m11, b.m21),
        m12: dot3(a.m10, a.m11, a.m12, b.m02, b.m12, b.m22),
        m20: dot3(a.m20, a.m21, a.m22, b.m00, b.m10, b.m20),
        m21: dot3(a.m20, a.m21, a.m22, b.m01, b.m11, b.m21),
        m22: dot3(a.m20, a.m21, a.m22, b.m02, b.m12, b.m22),
    }
}

/// Compose a whole transform stack, earliest entry applied first.
pub fn calc_trans_stack(trans_stack: &Vec<Mat3>) -> (r: Mat3)
    ensures
        r == spec_compose(trans_stack@),
{
    let mut res = mat_identity();
    let mut i: usize = 0;
    while i < trans_stack.len()
        invariant
            i <= trans_stack.len(),
            res == spec_compose(trans_stack@.subrange(0, i as int)),
        decreases trans_stack.len() - i,
    {
        proof {
            let pre = trans_stack@.subrange(0, i as int);
            let post = trans_stack@.subrange(0, i + 1);
            assert(post.drop_last() =~= pre);
            assert(post.last() == trans_stack@[i as int]);
        }
        res = mat_mul(&res, &trans_stack[i]);
        i = i + 1;
    }
    proof {
        assert(trans_stack@.subrange(0, trans_stack@.len() as int) =~= trans_stack@);
    }
    res
}

/// Transform the point `(x, y)` as a homogeneous column.
pub fn apply_point(m: &Mat3, x: i64, y: i64) -> (r: (i64, i64))
    ensures
        r == spec_apply(*m, x, y),
{
    let nx = dot3(m.m00, m.m01, m.m02, x, y, SCALE);
    let ny = dot3(m.m10, m.m11, m.m12, x, y, SCALE);
    let w = dot3(m.m20, m.m21, m.m22, x, y, SCALE);
    (fdiv(nx, w), fdiv(ny, w))
}


/// A 3x3 matrix of unbounded integers: the exact model that the
/// saturating fixed-point product approximates.
pub struct ExactMat {
    pub m00: int,
    pub m01: int,
    pub m02: int,
    pub m10: int,
    pub m11: int,
    pub m12: int,
    pub m20: int,
    pub m21: int,
    pub m22: int,
}

/// The exact matrix product `a * b`.
pub open spec fn exact_mat_mul(a: ExactMat, b: ExactMat) -> ExactMat {
    ExactMat {
        m00: a.m00 * b.m00 + a.m01 * b.m10 + a.m02 * b.m20,
        m01: a.m00 * b.m01 + a.m01 * b.m11 + a.m02 * b.m21,
        m02: a.m00 * b.m02 + a.m01 * b.m12 + a.m02 * b.m22,
        m10: a.m10 * b.m00 + a.m11 * b.m10 + a.m12 * b.m20,
        m11: a.m10 * b.m01 + a.m11 * b.m11 + a.m12 * b.m21,
        m12: a.m10 * b.m02 + a.m11 * b.m12 + a.m12 * b.m22,
        m20: a.m20 * b.m00 + a.m21 * b.m10 + a.m22 * b.m20,
        m21: a.m20 * b.m01 + a.m21 * b.m11 + a.m22 * b.m21,
        m22: a.m20 * b.m02 + a.m21 * b.m12 + a.m22 * b.m22,
    }
}

/// Matrix composition is associative in the exact model of the
/// left-to-right product.  The executable product truncates each entry
/// toward zero and saturates, so bit-level associativity does not hold
/// of it in general; the law holds of the arithmetic it approximates.
proof fn lemma_distrib3(x: int, y: int, z: int, c: int)
    ensures
        (x + y + z) * c == x * c + y * c + z * c,
{
    vstd::arithmetic::mul::lemma_mul_is_distributive_add_other_way(c, x + y, z);
    vstd::arithmetic::mul::lemma_mul_is_distributive_add_other_way(c, x, y);
}

proof fn lemma_row_assoc(a: int, b0: int, b1: int, b2: int, c0: int, c1: int, c2: int)
    ensures
        a * (b0 * c0 + b1 * c1 + b2 * c2) == (a * b0) * c0 + (a * b1) * c1 + (a * b2) * c2,
{
    vstd::arithmetic::mul::lemma_mul_is_distributive_add(a, b0 * c0 + b1 * c1, b2 * c2);
    vstd::arithmetic::mul::lemma_mul_is_distributive_add(a, b0 * c0, b1 * c1);
    vstd::arithmetic::mul::lemma_mul_is_associative(a, b0, c0);
    vstd::arithmetic::mul::lemma_mul_is_associative(a, b1, c1);
    vstd::arithmetic::mul::lemma_mul_is_associative(a, b2, c2);
}

#[verifier::spinoff_prover]
proof fn lemma_trilinear(
    a0: int, a1: int, a2: int,
    b00: int, b01: int, b02: int,
    b10: int, b11: int, b12: int,
    b20: int, b21: int, b22: int,
    c0: int, c1: int, c2: int,
)
    ensures
        (a0 * b00 + a1 * b10 + a2 * b20) * c0 + (a0 * b01 + a1 * b11 + a2 * b21) * c1 + (a0 * b02
            + a1 * b12 + a2 * b22) * c2 == a0 * (b00 * c0 + b01 * c1 + b02 * c2) + a1 * (b10 * c0
            + b11 * c1 + b12 * c2) + a2 * (b20 * c0 + b21 * c1 + b22 * c2),
{
    lemma_distrib3(a0 * b00, a1 * b10, a2 * b20, c0);
    lemma_distrib3(a0 * b01, a1 * b11, a2 * b21, c1);
    lemma_distrib3(a0 * b02, a1 * b12, a2 * b22, c2);
    lemma_row_assoc(a0, b00, b01, b02, c0, c1, c2);
    lemma_row_assoc(a1, b10, b11, b12, c0, c1, c2);
    lemma_row_assoc(a2, b20, b21, b22, c0, c1, c2);
}

/// Matrix composition is associative in the exact model of the
/// left-to-right product.  The executable product truncates each entry
/// toward zero and saturates, so bit-level associativity does not hold
/// of it in general; the law holds of the arithmetic it approximates.
pub proof fn lemma_mat_mul_assoc(a: ExactMat, b: ExactMat, c: ExactMat)
    ensures
        exact_mat_mul(exact_mat_mul(a, b), c) == exact_mat_mul(a, exact_mat_mul(b, c)),
{
    lemma_trilinear(a.m00, a.m01, a.m02, b.m00, b.m01, b.m02, b.m10, b.m11, b.m12, b.m20, b.m21, b.m22, c.m00, c.m10, c.m20);
    lemma_trilinear(a.m00, a.m01, a.m02, b.m00, b.m01, b.m02, b.m10, b.m11, b.m12, b.m20, b.m21, b.m22, c.m01, c.m11, c.m21);
    lemma_trilinear(a.m00, a.m01, a.m02, b.m00, b.m01, b.m02, b.m10, b.m11, b.m12, b.m20, b.m21, b.m22, c.m02, c.m12, c.m22);
    lemma_trilinear(a.m10, a.m11, a.m12, b.m00, b.m01, b.m02, b.m10, b.m11, b.m12, b.m20, b.m21, b.m22, c.m00, c.m10, c.m20);
    lemma_trilinear(a.m10, a.m11, a.m12, b.m00, b.m01, b.m02, b.m10, b.m11, b.m12, b.m20, b.m21, b.m22, c.m01, c.m11, c.m21);
    lemma_trilinear(a.m10, a.m11, a.m12, b.m00, b.m01, b.m02, b.m10, b.m11, b.m12, b.m20, b.m21, b.m22, c.m02, c.m12, c.m22);
    lemma_trilinear(a.m20, a.m21, a.m22, b.m00, b.m01, b.m02, b.m10, b.m11, b.m12, b.m20, b.m21, b.m22, c.m00, c.m10, c.m20);
    lemma_trilinear(a.m20, a.m21, a.m22, b.m00, b.m01, b.m02, b.m10, b.m11, b.m12, b.m20, b.m21, b.m22, c.m01, c.m11, c.m21);
    lemma_trilinear(a.m20, a.m21, a.m22, b.m00, b.m01, b.m02, b.m10, b.m11, b.m12, b.m20, b.m21, b.m22, c.m02, c.m12, c.m22);
}

/// The identity transform returns every point unchanged; in particular
/// a run that pushed no transform emits raw coordinates.
pub proof fn lemma_apply_identity(x: i64, y: i64)
    ensures
        spec_apply(spec_mat_identity(), x, y) == (x, y),
{
    crate::fixed::lemma_fmul_scale(x);
    crate::fixed::lemma_fmul_scale(y);
    crate::fixed::lemma_fmul_scale(SCALE);
    crate::fixed::lemma_fdiv_scale(x);
    crate::fixed::lemma_fdiv_scale(y);
}

/// Pushing a transform and immediately popping it restores the composed
/// current transform exactly.
pub proof fn lemma_push_pop_restores(stack: Seq<Mat3>, m: Mat3)
    ensures
        spec_compose(stack.push(m).drop_last()) == spec_compose(stack),
{
    assert(stack.push(m).drop_last() =~= stack);
}

} // verus!
