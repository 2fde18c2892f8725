//! The drawing commands and the generation context they act on.
//!
//! Each command descriptor carries its names (aliases), its argument
//! count, and its behavior: a function of the mutable generation context
//! and the bound arguments that returns the emitted points.  Push and pop
//! commands maintain the invariant that the cached current transform of
//! each stack equals the composition of that stack.

use vstd::prelude::*;

use crate::any_data::AnyData;
use crate::fixed::{fadd, fmul, fsub, spec_fadd, spec_fmul, spec_fsub, SCALE};
use crate::gen::{spec_point_matrix, VecLineData, VecOpsType};
use crate::matrix::{calc_trans_stack, spec_compose, Mat3};
use crate::trig::{sin_cos, spec_sin_cos};

verus! {

/// Number of points sampled for each curved segment: the parameter runs
/// from zero up to, but not including, one in steps of a hundredth.
pub const CURVE_SAMPLES: usize = 100;

/// The mathematical state of a generation run: the grouping flag, the pen
/// cursor, and the two transform stacks (the cached current transforms
/// are determined by the stacks and so are not part of the view).
#[verifier::ext_equal]
pub struct CtxView {
    pub grouping: bool,
    pub cursor: VecLineData,
    pub lstack: Seq<Mat3>,
    pub wstack: Seq<Mat3>,
}

/// Mutable interpreter state threaded through one generation run.
pub struct GenerateCtx {
    pub grouping: bool,
    pub cursor: VecLineData,
    pub local_trans_stack: Vec<Mat3>,
    pub current_local_trans: Mat3,
    pub world_trans_stack: Vec<Mat3>,
    pub current_world_trans: Mat3,
}

impl View for GenerateCtx {
    type V = CtxView;

    open spec fn view(&self) -> CtxView {
        CtxView {
            grouping: self.grouping,
            cursor: self.cursor,
            lstack: self.local_trans_stack@,
            wstack: self.world_trans_stack@,
        }
    }
}

impl GenerateCtx {
    /// The cached current transforms equal the composition of their
    /// stacks; established at construction, preserved by every command.
    pub open spec fn wf(&self) -> bool {
        &&& self.current_local_trans == spec_compose(self.local_trans_stack@)
        &&& self.current_world_trans == spec_compose(self.world_trans_stack@)
    }
}

/// The state every generation run starts from: not grouping, cursor at
/// the origin, both stacks empty.
pub open spec fn spec_initial_ctx() -> CtxView {
    CtxView {
        grouping: false,
        cursor: VecLineData { x: 0, y: 0 },
        lstack: Seq::empty(),
        wstack: Seq::empty(),
    }
}

impl Default for GenerateCtx {
    fn default() -> (r: Self)
        ensures
            r.wf(),
            r@ == spec_initial_ctx(),
    {
        let r = GenerateCtx {
            grouping: false,
            cursor: VecLineData { x: 0, y: 0 },
            local_trans_stack: Vec::new(),
            current_local_trans: crate::matrix::mat_identity(),
            world_trans_stack: Vec::new(),
            current_world_trans: crate::matrix::mat_identity(),
        };
        proof {
            assert(r@ =~= spec_initial_ctx());
        }
        r
    }
}

/// The numbers held by a sequence of boxed values.
pub open spec fn spec_args(s: Seq<AnyData>) -> Seq<i64> {
    s.map_values(|a: AnyData| a.num())
}

/// The declared argument count of each command kind.
pub open spec fn spec_argc(kind: VecOpsType) -> int {
    match kind {
        VecOpsType::VecOpMove => 2,
        VecOpsType::VecOpLine => 2,
        VecOpsType::VecOpQuad => 4,
        VecOpsType::VecOpCubi => 6,
        VecOpsType::VecOpEnd => 0,
        VecOpsType::VecOpPushTrans => 9,
        VecOpsType::VecOpPopTrans => 0,
        VecOpsType::VecOpPushScale => 2,
        VecOpsType::VecOpPushRotate => 1,
        VecOpsType::VecOpPushSkew => 2,
        VecOpsType::VecOpPushTranslate => 2,
        VecOpsType::VecOpPushWorldTrans => 9,
        VecOpsType::VecOpPopWorldTrans => 0,
        VecOpsType::VecOpPushWorldScale => 2,
        VecOpsType::VecOpPushWorldRotate => 1,
        VecOpsType::VecOpPushWorldSkew => 2,
        VecOpsType::VecOpPushWorldTranslate => 2,
    }
}

/// The declared argument count of a command kind, by its descriptor.
pub fn kind_argc(kind: VecOpsType) -> (r: usize)
    ensures
        r == spec_argc(kind),
{
    match kind {
        VecOpsType::VecOpMove => CommonOpMOVE {}.argc(),
        VecOpsType::VecOpLine => CommonOpLINE {}.argc(),
        VecOpsType::VecOpQuad => CommonOpQUAD {}.argc(),
        VecOpsType::VecOpCubi => CommonOpCUBI {}.argc(),
        VecOpsType::VecOpEnd => CommonOpEND {}.argc(),
        VecOpsType::VecOpPushTrans => CommonOpPushTrans {}.argc(),
        VecOpsType::VecOpPopTrans => CommonOpPopTrans {}.argc(),
        VecOpsType::VecOpPushScale => CommonOpPushScale {}.argc(),
        VecOpsType::VecOpPushRotate => CommonOpPushRotate {}.argc(),
        VecOpsType::VecOpPushSkew => CommonOpPushSkew {}.argc(),
        VecOpsType::VecOpPushTranslate => CommonOpPushTranslate {}.argc(),
        VecOpsType::VecOpPushWorldTrans => CommonOpPushWorldTrans {}.argc(),
        VecOpsType::VecOpPopWorldTrans => CommonOpPopWorldTrans {}.argc(),
        VecOpsType::VecOpPushWorldScale => CommonOpPushWorldScale {}.argc(),
        VecOpsType::VecOpPushWorldRotate => CommonOpPushWorldRotate {}.argc(),
        VecOpsType::VecOpPushWorldSkew => CommonOpPushWorldSkew {}.argc(),
        VecOpsType::VecOpPushWorldTranslate => CommonOpPushWorldTranslate {}.argc(),
    }
}

/// An explicit 3x3 matrix from nine arguments, row by row.
pub open spec fn spec_trans_mat(a: Seq<i64>) -> Mat3 {
    Mat3 {
        m00: a[0],
        m01: a[1],
        m02: a[2],
        m10: a[3],
        m11: a[4],
        m12: a[5],
        m20: a[6],
        m21: a[7],
        m22: a[8],
    }
}

/// A diagonal scale matrix.
pub open spec fn spec_scale_mat(sx: i64, sy: i64) -> Mat3 {
    Mat3 { m00: sx, m01: 0, m02: 0, m10: 0, m11: sy, m12: 0, m20: 0, m21: 0, m22: SCALE }
}

/// A rotation matrix from the fixed-point sine and cosine of the angle.
pub open spec fn spec_rotate_mat(theta: i64) -> Mat3 {
    let sc = spec_sin_cos(theta);
    Mat3 {
        m00: sc.1,
        m01: spec_fsub(0, sc.0),
        m02: 0,
        m10: sc.0,
        m11: sc.1,
        m12: 0,
        m20: 0,
        m21: 0,
        m22: SCALE,
    }
}

/// An off-diagonal skew matrix.
pub open spec fn spec_skew_mat(kx: i64, ky: i64) -> Mat3 {
    Mat3 { m00: SCALE, m01: kx, m02: 0, m10: ky, m11: SCALE, m12: 0, m20: 0, m21: 0, m22: SCALE }
}

/// A translation matrix in homogeneous-column form.
pub open spec fn spec_translate_mat(tx: i64, ty: i64) -> Mat3 {
    Mat3 { m00: SCALE, m01: 0, m02: tx, m10: 0, m11: SCALE, m12: ty, m20: 0, m21: 0, m22: SCALE }
}

/// Consecutive pairs of the arguments, each transformed as a point by
/// `m`, flattened back into coordinates.
pub open spec fn spec_process(args: Seq<i64>, m: Mat3) -> Seq<i64>
    decreases args.len(),
{
    if args.len() < 2 {
        Seq::empty()
    } else {
        let p = spec_point_matrix(VecLineData { x: args[0], y: args[1] }, m);
        seq![p.x, p.y] + spec_process(args.skip(2), m)
    }
}

/// Transform consecutive coordinate pairs by `matrix`.
pub fn process_point(argv: &Vec<AnyData>, matrix: &Mat3) -> (r: Vec<i64>)
    requires
        forall|i: int| 0 <= i < argv@.len() ==> argv@[i].is_num(),
    ensures
        r@ == spec_process(spec_args(argv@), *matrix),
{
    let ghost all: Seq<i64> = spec_args(argv@);
    let mut out: Vec<i64> = Vec::new();
    let mut i: usize = 0;
    proof {
        assert(all.skip(0) =~= all);
        assert(Seq::<i64>::empty() + spec_process(all, *matrix) =~= spec_process(all, *matrix));
    }
    while i + 1 < argv.len()
        invariant
            i % 2 == 0,
            i <= argv@.len(),
            all == spec_args(argv@),
            forall|j: int| 0 <= j < argv@.len() ==> argv@[j].is_num(),
            spec_process(all, *matrix) == out@ + spec_process(all.skip(i as int), *matrix),
        decreases argv.len() - i,
    {
        let x = *argv[i].cast_ref();
        let y = *argv[i + 1].cast_ref();
        let p = VecLineData::new(x, y).matrix(matrix);
        proof {
            let rest = all.skip(i as int);
            assert(rest[0] == all[i as int]);
            assert(rest[1] == all[i as int + 1]);
            assert(rest.skip(2) =~= all.skip(i as int + 2));
            assert(out@ + spec_process(rest, *matrix) == (out@ + seq![p.x, p.y]) + spec_process(
                all.skip(i as int + 2),
                *matrix,
            ));
        }
        out.push(p.x);
        out.push(p.y);
        i = i + 2;
    }
    proof {
        assert(spec_process(all.skip(i as int), *matrix) =~= Seq::<i64>::empty());
        assert(out@ + Seq::<i64>::empty() =~= out@);
    }
    out
}

/// One sample of the quadratic Bezier from `p0` with control `p1` and
/// end `p2`, at parameter `k` hundredths.
pub open spec fn spec_quad_point(p0: VecLineData, p1: VecLineData, p2: VecLineData, k: int) -> VecLineData {
    let t: i64 = (10_000 * k) as i64;
    let u: i64 = spec_fsub(SCALE, t);
    VecLineData {
        x: spec_fadd(
            spec_fadd(
                spec_fmul(spec_fmul(u, u), p0.x),
                spec_fmul(spec_fmul(spec_fmul(2_000_000, u), t), p1.x),
            ),
            spec_fmul(spec_fmul(t, t), p2.x),
        ),
        y: spec_fadd(
            spec_fadd(
                spec_fmul(spec_fmul(u, u), p0.y),
                spec_fmul(spec_fmul(spec_fmul(2_000_000, u), t), p1.y),
            ),
            spec_fmul(spec_fmul(t, t), p2.y),
        ),
    }
}

/// One sample of the cubic Bezier from `p0` with controls `p1`, `p2` and
/// end `p3`, at parameter `k` hundredths.
pub open spec fn spec_cubi_point(
    p0: VecLineData,
    p1: VecLineData,
    p2: VecLineData,
    p3: VecLineData,
    k: int,
) -> VecLineData {
    let t: i64 = (10_000 * k) as i64;
    let u: i64 = spec_fsub(SCALE, t);
    let u2: i64 = spec_fmul(u, u);
    let t2: i64 = spec_fmul(t, t);
    VecLineData {
        x: spec_fadd(
            spec_fadd(
                spec_fadd(
                    spec_fmul(spec_fmul(u2, u), p0.x),
                    spec_fmul(spec_fmul(spec_fmul(3_000_000, u2), t), p1.x),
                ),
                spec_fmul(spec_fmul(spec_fmul(3_000_000, u), t2), p2.x),
            ),
            spec_fmul(spec_fmul(t2, t), p3.x),
        ),
        y: spec_fadd(
            spec_fadd(
                spec_fadd(
                    spec_fmul(spec_fmul(u2, u), p0.y),
                    spec_fmul(spec_fmul(spec_fmul(3_000_000, u2), t), p1.y),
                ),
                spec_fmul(spec_fmul(spec_fmul(3_000_000, u), t2), p2.y),
            ),
            spec_fmul(spec_fmul(t2, t), p3.y),
        ),
    }
}

/// The first `n` arguments transformed pairwise by the current local
/// transform of `c`.
pub open spec fn spec_local_point(c: CtxView, args: Seq<i64>, i: int) -> VecLineData {
    spec_point_matrix(
        VecLineData { x: args[2 * i], y: args[2 * i + 1] },
        spec_compose(c.lstack),
    )
}

/// The context after one command.
pub open spec fn spec_step(c: CtxView, kind: VecOpsType, args: Seq<i64>) -> CtxView {
    match kind {
        VecOpsType::VecOpMove => CtxView { grouping: false, cursor: spec_local_point(c, args, 0), ..c },
        VecOpsType::VecOpLine => CtxView { grouping: true, cursor: spec_local_point(c, args, 0), ..c },
        VecOpsType::VecOpQuad => CtxView { grouping: true, cursor: spec_local_point(c, args, 1), ..c },
        VecOpsType::VecOpCubi => CtxView { grouping: true, cursor: spec_local_point(c, args, 2), ..c },
        VecOpsType::VecOpEnd => c,
        VecOpsType::VecOpPushTrans => CtxView { lstack: c.lstack.push(spec_trans_mat(args)), ..c },
        VecOpsType::VecOpPopTrans => if c.lstack.len() == 0 {
            c
        } else {
            CtxView { lstack: c.lstack.drop_last(), ..c }
        },
        VecOpsType::VecOpPushScale => CtxView {
            lstack: c.lstack.push(spec_scale_mat(args[0], args[1])),
            ..c
        },
        VecOpsType::VecOpPushRotate => CtxView {
            lstack: c.lstack.push(spec_rotate_mat(args[0])),
            ..c
        },
        VecOpsType::VecOpPushSkew => CtxView {
            lstack: c.lstack.push(spec_skew_mat(args[0], args[1])),
            ..c
        },
        VecOpsType::VecOpPushTranslate => CtxView {
            lstack: c.lstack.push(spec_translate_mat(args[0], args[1])),
            ..c
        },
        VecOpsType::VecOpPushWorldTrans => CtxView { wstack: c.wstack.push(spec_trans_mat(args)), ..c },
        VecOpsType::VecOpPopWorldTrans => if c.wstack.len() == 0 {
            c
        } else {
            CtxView { wstack: c.wstack.drop_last(), ..c }
        },
        VecOpsType::VecOpPushWorldScale => CtxView {
            wstack: c.wstack.push(spec_scale_mat(args[0], args[1])),
            ..c
        },
        VecOpsType::VecOpPushWorldRotate => CtxView {
            wstack: c.wstack.push(spec_rotate_mat(args[0])),
            ..c
        },
        VecOpsType::VecOpPushWorldSkew => CtxView {
            wstack: c.wstack.push(spec_skew_mat(args[0], args[1])),
            ..c
        },
        VecOpsType::VecOpPushWorldTranslate => CtxView {
            wstack: c.wstack.push(spec_translate_mat(args[0], args[1])),
            ..c
        },
    }
}

/// The points one command emits.
pub open spec fn spec_emit(c: CtxView, kind: VecOpsType, args: Seq<i64>) -> Seq<VecLineData> {
    match kind {
        VecOpsType::VecOpMove => seq![spec_local_point(c, args, 0)],
        VecOpsType::VecOpLine => seq![c.cursor, spec_local_point(c, args, 0)],
        VecOpsType::VecOpQuad => Seq::new(
            CURVE_SAMPLES as nat,
            |k: int|
                spec_quad_point(
                    c.cursor,
                    spec_local_point(c, args, 0),
                    spec_local_point(c, args, 1),
                    k,
                ),
        ),
        VecOpsType::VecOpCubi => Seq::new(
            CURVE_SAMPLES as nat,
            |k: int|
                spec_cubi_point(
                    c.cursor,
                    spec_local_point(c, args, 0),
                    spec_local_point(c, args, 1),
                    spec_local_point(c, args, 2),
                    k,
                ),
        ),
        _ => Seq::empty(),
    }
}

pub struct CommonOpMOVE;

pub struct CommonOpLINE;

pub struct CommonOpQUAD;

pub struct CommonOpCUBI;

pub struct CommonOpEND;

impl CommonOpMOVE {
    pub fn name(&self) -> (r: Vec<&'static str>)
        ensures
            r@.len() == 1,
            r@[0]@ == "MOVE"@,
    {
        vec!["MOVE"]
    }

    pub fn argc(&self) -> (r: usize)
        ensures
            r == spec_argc(VecOpsType::VecOpMove),
    {
        2
    }

    /// Move the pen to the transformed target and start a new stroke.
    pub fn operate(&self, ctx: &mut GenerateCtx, argv: &Vec<AnyData>) -> (r: Vec<VecLineData>)
        requires
            old(ctx).wf(),
            argv@.len() == spec_argc(VecOpsType::VecOpMove),
            forall|i: int| 0 <= i < argv@.len() ==> argv@[i].is_num(),
        ensures
            final(ctx).wf(),
            final(ctx)@ == spec_step(old(ctx)@, VecOpsType::VecOpMove, spec_args(argv@)),
            r@ == spec_emit(old(ctx)@, VecOpsType::VecOpMove, spec_args(argv@)),
    {
        let tv = process_point(argv, &ctx.current_local_trans);
        proof {
            let args = spec_args(argv@);
            assert(tv@[0] == spec_local_point(old(ctx)@, args, 0).x);
            assert(tv@[1] == spec_local_point(old(ctx)@, args, 0).y);
        }
        let p = VecLineData::new(tv[0], tv[1]);
        ctx.grouping = false;
        ctx.cursor = p;
        let mut out: Vec<VecLineData> = Vec::new();
        out.push(p);
        proof {
            let args = spec_args(argv@);
            assert(ctx@ =~= spec_step(old(ctx)@, VecOpsType::VecOpMove, args));
            assert(out@ =~= spec_emit(old(ctx)@, VecOpsType::VecOpMove, args));
        }
        out
    }
}

impl CommonOpLINE {
    pub fn name(&self) -> (r: Vec<&'static str>)
        ensures
            r@.len() == 1,
            r@[0]@ == "LINE"@,
    {
        vec!["LINE"]
    }

    pub fn argc(&self) -> (r: usize)
        ensures
            r == spec_argc(VecOpsType::VecOpLine),
    {
        2
    }

    /// Draw from the cursor to the transformed target, grouping the two
    /// points onto the current stroke.
    pub fn operate(&self, ctx: &mut GenerateCtx, argv: &Vec<AnyData>) -> (r: Vec<VecLineData>)
        requires
            old(ctx).wf(),
            argv@.len() == spec_argc(VecOpsType::VecOpLine),
            forall|i: int| 0 <= i < argv@.len() ==> argv@[i].is_num(),
        ensures
            final(ctx).wf(),
            final(ctx)@ == spec_step(old(ctx)@, VecOpsType::VecOpLine, spec_args(argv@)),
            r@ == spec_emit(old(ctx)@, VecOpsType::VecOpLine, spec_args(argv@)),
    {
        let tv = process_point(argv, &ctx.current_local_trans);
        proof {
            let args = spec_args(argv@);
            assert(tv@[0] == spec_local_point(old(ctx)@, args, 0).x);
            assert(tv@[1] == spec_local_point(old(ctx)@, args, 0).y);
        }
        let p = VecLineData::new(tv[0], tv[1]);
        let mut out: Vec<VecLineData> = Vec::new();
        out.push(VecLineData::new(ctx.cursor.x, ctx.cursor.y));
        out.push(p);
        ctx.grouping = true;
        ctx.cursor = p;
        proof {
            let args = spec_args(argv@);
            assert(ctx@ =~= spec_step(old(ctx)@, VecOpsType::VecOpLine, args));
            assert(out@ =~= spec_emit(old(ctx)@, VecOpsType::VecOpLine, args));
        }
        out
    }
}

impl CommonOpQUAD {
    pub fn name(&self) -> (r: Vec<&'static str>)
        ensures
            r@.len() == 1,
            r@[0]@ == "QUAD"@,
    {
        vec!["QUAD"]
    }

    pub fn argc(&self) -> (r: usize)
        ensures
            r == spec_argc(VecOpsType::VecOpQuad),
    {
        4
    }

    /// Flatten the quadratic Bezier from the cursor through the two
    /// transformed control points, sampling the parameter in hundredths.
    pub fn operate(&self, ctx: &mut GenerateCtx, argv: &Vec<AnyData>) -> (r: Vec<VecLineData>)
        requires
            old(ctx).wf(),
            argv@.len() == spec_argc(VecOpsType::VecOpQuad),
            forall|i: int| 0 <= i < argv@.len() ==> argv@[i].is_num(),
        ensures
            final(ctx).wf(),
            final(ctx)@ == spec_step(old(ctx)@, VecOpsType::VecOpQuad, spec_args(argv@)),
            r@ == spec_emit(old(ctx)@, VecOpsType::VecOpQuad, spec_args(argv@)),
    {
        let tv = process_point(argv, &ctx.current_local_trans);
        proof {
            reveal_with_fuel(spec_process, 3);
            let args = spec_args(argv@);
            let rest = args.skip(2);
            assert(rest[0] == args[2] && rest[1] == args[3]);
            assert(tv@[0] == spec_local_point(old(ctx)@, args, 0).x);
            assert(tv@[1] == spec_local_point(old(ctx)@, args, 0).y);
            assert(tv@[2] == spec_local_point(old(ctx)@, args, 1).x);
            assert(tv@[3] == spec_local_point(old(ctx)@, args, 1).y);
        }
        let p1 = VecLineData::new(tv[0], tv[1]);
        let p2 = VecLineData::new(tv[2], tv[3]);
        let cursor = ctx.cursor;
        let mut points: Vec<VecLineData> = Vec::new();
        let mut k: usize = 0;
        while k < CURVE_SAMPLES
            invariant
                k <= CURVE_SAMPLES,
                points@ =~= Seq::new(k as nat, |j: int| spec_quad_point(cursor, p1, p2, j)),
            decreases CURVE_SAMPLES - k,
        {
            let t: i64 = (k as i64) * 10_000;
            let u: i64 = fsub(SCALE, t);
            let x = fadd(
                fadd(fmul(fmul(u, u), cursor.x), fmul(fmul(fmul(2_000_000, u), t), p1.x)),
                fmul(fmul(t, t), p2.x),
            );
            let y = fadd(
                fadd(fmul(fmul(u, u), cursor.y), fmul(fmul(fmul(2_000_000, u), t), p1.y)),
                fmul(fmul(t, t), p2.y),
            );
            points.push(VecLineData::new(x, y));
            proof {
                assert(points@ =~= Seq::new(
                    (k + 1) as nat,
                    |j: int| spec_quad_point(cursor, p1, p2, j),
                ));
            }
            k = k + 1;
        }
        ctx.grouping = true;
        ctx.cursor = p2;
        proof {
            let args = spec_args(argv@);
            assert(ctx@ =~= spec_step(old(ctx)@, VecOpsType::VecOpQuad, args));
            assert(points@ =~= spec_emit(old(ctx)@, VecOpsType::VecOpQuad, args));
        }
        points
    }
}

impl CommonOpCUBI {
    pub fn name(&self) -> (r: Vec<&'static str>)
        ensures
            r@.len() == 2,
            r@[0]@ == "CUBI"@,
            r@[1]@ == "CUBIC"@,
    {
        vec!["CUBI", "CUBIC"]
    }

    pub fn argc(&self) -> (r: usize)
        ensures
            r == spec_argc(VecOpsType::VecOpCubi),
    {
        6
    }

    /// Flatten the cubic Bezier from the cursor through the three
    /// transformed control points, sampling the parameter in hundredths.
    #[verifier::rlimit(60)]
    pub fn operate(&self, ctx: &mut GenerateCtx, argv: &Vec<AnyData>) -> (r: Vec<VecLineData>)
        requires
            old(ctx).wf(),
            argv@.len() == spec_argc(VecOpsType::VecOpCubi),
            forall|i: int| 0 <= i < argv@.len() ==> argv@[i].is_num(),
        ensures
            final(ctx).wf(),
            final(ctx)@ == spec_step(old(ctx)@, VecOpsType::VecOpCubi, spec_args(argv@)),
            r@ == spec_emit(old(ctx)@, VecOpsType::VecOpCubi, spec_args(argv@)),
    {
        let tv = process_point(argv, &ctx.current_local_trans);
        proof {
            reveal_with_fuel(spec_process, 4);
            let args = spec_args(argv@);
            let rest = args.skip(2);
            let rest2 = rest.skip(2);
            assert(rest[0] == args[2] && rest[1] == args[3]);
            assert(rest2 =~= args.skip(4));
            assert(rest2[0] == args[4] && rest2[1] == args[5]);
            assert(tv@[0] == spec_local_point(old(ctx)@, args, 0).x);
            assert(tv@[1] == spec_local_point(old(ctx)@, args, 0).y);
            assert(tv@[2] == spec_local_point(old(ctx)@, args, 1).x);
            assert(tv@[3] == spec_local_point(old(ctx)@, args, 1).y);
            assert(tv@[4] == spec_local_point(old(ctx)@, args, 2).x);
            assert(tv@[5] == spec_local_point(old(ctx)@, args, 2).y);
        }
        let p1 = VecLineData::new(tv[0], tv[1]);
        let p2 = VecLineData::new(tv[2], tv[3]);
        let p3 = VecLineData::new(tv[4], tv[5]);
        let cursor = ctx.cursor;
        let mut points: Vec<VecLineData> = Vec::new();
        let mut k: usize = 0;
        while k < CURVE_SAMPLES
            invariant
                k <= CURVE_SAMPLES,
                points@ =~= Seq::new(k as nat, |j: int| spec_cubi_point(cursor, p1, p2, p3, j)),
            decreases CURVE_SAMPLES - k,
        {
            let t: i64 = (k as i64) * 10_000;
            let u: i64 = fsub(SCALE, t);
            let u2: i64 = fmul(u, u);
            let t2: i64 = fmul(t, t);
            let x = fadd(
                fadd(
                    fadd(
                        fmul(fmul(u2, u), cursor.x),
                        fmul(fmul(fmul(3_000_000, u2), t), p1.x),
                    ),
                    fmul(fmul(fmul(3_000_000, u), t2), p2.x),
                ),
                fmul(fmul(t2, t), p3.x),
            );
            let y = fadd(
                fadd(
                    fadd(
                        fmul(fmul(u2, u), cursor.y),
                        fmul(fmul(fmul(3_000_000, u2), t), p1.y),
                    ),
                    fmul(fmul(fmul(3_000_000, u), t2), p2.y),
                ),
                fmul(fmul(t2, t), p3.y),
            );
            points.push(VecLineData::new(x, y));
            proof {
                assert(points@ =~= Seq::new(
                    (k + 1) as nat,
                    |j: int| spec_cubi_point(cursor, p1, p2, p3, j),
                ));
            }
            k = k + 1;
        }
        ctx.grouping = true;
        ctx.cursor = p3;
        proof {
            let args = spec_args(argv@);
            assert(ctx@ =~= spec_step(old(ctx)@, VecOpsType::VecOpCubi, args));
            assert(points@ =~= spec_emit(old(ctx)@, VecOpsType::VecOpCubi, args));
        }
        points
    }
}

impl CommonOpEND {
    pub fn name(&self) -> (r: Vec<&'static str>)
        ensures
            r@.len() == 2,
            r@[0]@ == "END"@,
            r@[1]@ == "CLOSE"@,
    {
        vec!["END", "CLOSE"]
    }

    pub fn argc(&self) -> (r: usize)
        ensures
            r == spec_argc(VecOpsType::VecOpEnd),
    {
        0
    }

    /// A placeholder terminator: no geometry, no state change.
    pub fn operate(&self, ctx: &mut GenerateCtx, argv: &Vec<AnyData>) -> (r: Vec<VecLineData>)
        requires
            old(ctx).wf(),
            argv@.len() == spec_argc(VecOpsType::VecOpEnd),
        ensures
            final(ctx).wf(),
            *final(ctx) == *old(ctx),
            final(ctx)@ == spec_step(old(ctx)@, VecOpsType::VecOpEnd, spec_args(argv@)),
            r@ == spec_emit(old(ctx)@, VecOpsType::VecOpEnd, spec_args(argv@)),
    {
        let out: Vec<VecLineData> = Vec::new();
        proof {
            assert(out@ =~= spec_emit(old(ctx)@, VecOpsType::VecOpEnd, spec_args(argv@)));
        }
        out
    }
}

pub struct CommonOpPushTrans;

pub struct CommonOpPushWorldTrans;

pub struct CommonOpPopTrans;

pub struct CommonOpPopWorldTrans;

pub struct CommonOpPushScale;

pub struct CommonOpPushWorldScale;

pub struct CommonOpPushRotate;

pub struct CommonOpPushWorldRotate;

pub struct CommonOpPushSkew;

pub struct CommonOpPushWorldSkew;

pub struct CommonOpPushTranslate;

pub struct CommonOpPushWorldTranslate;

impl CommonOpPushTrans {
    pub fn name(&self) -> (r: Vec<&'static str>)
        ensures
            r@.len() == 1,
            r@[0]@ == "PUSH_TRANS"@,
    {
        vec!["PUSH_TRANS"]
    }

    pub fn argc(&self) -> (r: usize)
        ensures
            r == spec_argc(VecOpsType::VecOpPushTrans),
    {
        9
    }

    /// Push an explicit matrix onto the local stack.
    pub fn operate(&self, ctx: &mut GenerateCtx, argv: &Vec<AnyData>) -> (r: Vec<VecLineData>)
        requires
            old(ctx).wf(),
            argv@.len() == spec_argc(VecOpsType::VecOpPushTrans),
            forall|i: int| 0 <= i < argv@.len() ==> argv@[i].is_num(),
        ensures
            final(ctx).wf(),
            final(ctx)@ == spec_step(old(ctx)@, VecOpsType::VecOpPushTrans, spec_args(argv@)),
            r@ == spec_emit(old(ctx)@, VecOpsType::VecOpPushTrans, spec_args(argv@)),
    {
        let m = Mat3 {
            m00: *argv[0].cast_ref(),
            m01: *argv[1].cast_ref(),
            m02: *argv[2].cast_ref(),
            m10: *argv[3].cast_ref(),
            m11: *argv[4].cast_ref(),
            m12: *argv[5].cast_ref(),
            m20: *argv[6].cast_ref(),
            m21: *argv[7].cast_ref(),
            m22: *argv[8].cast_ref(),
        };
        ctx.local_trans_stack.push(m);
        ctx.current_local_trans = calc_trans_stack(&ctx.local_trans_stack);
        let out: Vec<VecLineData> = Vec::new();
        proof {
            let args = spec_args(argv@);
            assert(ctx@ =~= spec_step(old(ctx)@, VecOpsType::VecOpPushTrans, args));
            assert(out@ =~= spec_emit(old(ctx)@, VecOpsType::VecOpPushTrans, args));
        }
        out
    }
}

impl CommonOpPushWorldTrans {
    pub fn name(&self) -> (r: Vec<&'static str>)
        ensures
            r@.len() == 1,
            r@[0]@ == "PUSH_WORLD_TRANS"@,
    {
        vec!["PUSH_WORLD_TRANS"]
    }

    pub fn argc(&self) -> (r: usize)
        ensures
            r == spec_argc(VecOpsType::VecOpPushWorldTrans),
    {
        9
    }

    /// Push an explicit matrix onto the world stack.
    pub fn operate(&self, ctx: &mut GenerateCtx, argv: &Vec<AnyData>) -> (r: Vec<VecLineData>)
        requires
            old(ctx).wf(),
            argv@.len() == spec_argc(VecOpsType::VecOpPushWorldTrans),
            forall|i: int| 0 <= i < argv@.len() ==> argv@[i].is_num(),
        ensures
            final(ctx).wf(),
            final(ctx)@ == spec_step(old(ctx)@, VecOpsType::VecOpPushWorldTrans, spec_args(argv@)),
            r@ == spec_emit(old(ctx)@, VecOpsType::VecOpPushWorldTrans, spec_args(argv@)),
    {
        let m = Mat3 {
            m00: *argv[0].cast_ref(),
            m01: *argv[1].cast_ref(),
            m02: *argv[2].cast_ref(),
            m10: *argv[3].cast_ref(),
            m11: *argv[4].cast_ref(),
            m12: *argv[5].cast_ref(),
            m20: *argv[6].cast_ref(),
            m21: *argv[7].cast_ref(),
            m22: *argv[8].cast_ref(),
        };
        ctx.world_trans_stack.push(m);
        ctx.current_world_trans = calc_trans_stack(&ctx.world_trans_stack);
        let out: Vec<VecLineData> = Vec::new();
        proof {
            let args = spec_args(argv@);
            assert(ctx@ =~= spec_step(old(ctx)@, VecOpsType::VecOpPushWorldTrans, args));
            assert(out@ =~= spec_emit(old(ctx)@, VecOpsType::VecOpPushWorldTrans, args));
        }
        out
    }
}

impl CommonOpPopTrans {
    pub fn name(&self) -> (r: Vec<&'static str>)
        ensures
            r@.len() == 1,
            r@[0]@ == "POP_TRANS"@,
    {
        vec!["POP_TRANS"]
    }

    pub fn argc(&self) -> (r: usize)
        ensures
            r == spec_argc(VecOpsType::VecOpPopTrans),
    {
        0
    }

    /// Pop the local stack; popping an empty stack is a silent no-op.
    pub fn operate(&self, ctx: &mut GenerateCtx, argv: &Vec<AnyData>) -> (r: Vec<VecLineData>)
        requires
            old(ctx).wf(),
            argv@.len() == spec_argc(VecOpsType::VecOpPopTrans),
        ensures
            final(ctx).wf(),
            final(ctx)@ == spec_step(old(ctx)@, VecOpsType::VecOpPopTrans, spec_args(argv@)),
            old(ctx)@.lstack.len() == 0 ==> *final(ctx) == *old(ctx),
            r@ == spec_emit(old(ctx)@, VecOpsType::VecOpPopTrans, spec_args(argv@)),
    {
        let out: Vec<VecLineData> = Vec::new();
        proof {
            assert(out@ =~= spec_emit(old(ctx)@, VecOpsType::VecOpPopTrans, spec_args(argv@)));
        }
        if ctx.local_trans_stack.len() == 0 {
            return out;
        }
        ctx.local_trans_stack.pop();
        ctx.current_local_trans = calc_trans_stack(&ctx.local_trans_stack);
        proof {
            assert(ctx.local_trans_stack@ =~= old(ctx)@.lstack.drop_last());
            assert(ctx@ =~= spec_step(old(ctx)@, VecOpsType::VecOpPopTrans, spec_args(argv@)));
        }
        out
    }
}

impl CommonOpPopWorldTrans {
    pub fn name(&self) -> (r: Vec<&'static str>)
        ensures
            r@.len() == 1,
            r@[0]@ == "POP_WORLD_TRANS"@,
    {
        vec!["POP_WORLD_TRANS"]
    }

    pub fn argc(&self) -> (r: usize)
        ensures
            r == spec_argc(VecOpsType::VecOpPopWorldTrans),
    {
        0
    }

    /// Pop the world stack; popping an empty stack is a silent no-op.
    pub fn operate(&self, ctx: &mut GenerateCtx, argv: &Vec<AnyData>) -> (r: Vec<VecLineData>)
        requires
            old(ctx).wf(),
            argv@.len() == spec_argc(VecOpsType::VecOpPopWorldTrans),
        ensures
            final(ctx).wf(),
            final(ctx)@ == spec_step(old(ctx)@, VecOpsType::VecOpPopWorldTrans, spec_args(argv@)),
            old(ctx)@.wstack.len() == 0 ==> *final(ctx) == *old(ctx),
            r@ == spec_emit(old(ctx)@, VecOpsType::VecOpPopWorldTrans, spec_args(argv@)),
    {
        let out: Vec<VecLineData> = Vec::new();
        proof {
            assert(out@ =~= spec_emit(old(ctx)@, VecOpsType::VecOpPopWorldTrans, spec_args(argv@)));
        }
        if ctx.world_trans_stack.len() == 0 {
            return out;
        }
        ctx.world_trans_stack.pop();
        ctx.current_world_trans = calc_trans_stack(&ctx.world_trans_stack);
        proof {
            assert(ctx.world_trans_stack@ =~= old(ctx)@.wstack.drop_last());
            assert(ctx@ =~= spec_step(old(ctx)@, VecOpsType::VecOpPopWorldTrans, spec_args(argv@)));
        }
        out
    }
}

impl CommonOpPushScale {
    pub fn name(&self) -> (r: Vec<&'static str>)
        ensures
            r@.len() == 2,
            r@[0]@ == "PUSH_SCALE"@,
            r@[1]@ == "SCALE"@,
    {
        vec!["PUSH_SCALE", "SCALE"]
    }

    pub fn argc(&self) -> (r: usize)
        ensures
            r == spec_argc(VecOpsType::VecOpPushScale),
    {
        2
    }

    /// Push a diagonal scale onto the local stack.
    pub fn operate(&self, ctx: &mut GenerateCtx, argv: &Vec<AnyData>) -> (r: Vec<VecLineData>)
        requires
            old(ctx).wf(),
            argv@.len() == spec_argc(VecOpsType::VecOpPushScale),
            forall|i: int| 0 <= i < argv@.len() ==> argv@[i].is_num(),
        ensures
            final(ctx).wf(),
            final(ctx)@ == spec_step(old(ctx)@, VecOpsType::VecOpPushScale, spec_args(argv@)),
            r@ == spec_emit(old(ctx)@, VecOpsType::VecOpPushScale, spec_args(argv@)),
    {
        let m = Mat3 {
            m00: *argv[0].cast_ref(),
            m01: 0,
            m02: 0,
            m10: 0,
            m11: *argv[1].cast_ref(),
            m12: 0,
            m20: 0,
            m21: 0,
            m22: SCALE,
        };
        ctx.local_trans_stack.push(m);
        ctx.current_local_trans = calc_trans_stack(&ctx.local_trans_stack);
        let out: Vec<VecLineData> = Vec::new();
        proof {
            let args = spec_args(argv@);
            assert(ctx@ =~= spec_step(old(ctx)@, VecOpsType::VecOpPushScale, args));
            assert(out@ =~= spec_emit(old(ctx)@, VecOpsType::VecOpPushScale, args));
        }
        out
    }
}

impl CommonOpPushWorldScale {
    pub fn name(&self) -> (r: Vec<&'static str>)
        ensures
            r@.len() == 2,
            r@[0]@ == "PUSH_WORLD_SCALE"@,
            r@[1]@ == "WORLD_SCALE"@,
    {
        vec!["PUSH_WORLD_SCALE", "WORLD_SCALE"]
    }

    pub fn argc(&self) -> (r: usize)
        ensures
            r == spec_argc(VecOpsType::VecOpPushWorldScale),
    {
        2
    }

    /// Push a diagonal scale onto the world stack.
    pub fn operate(&self, ctx: &mut GenerateCtx, argv: &Vec<AnyData>) -> (r: Vec<VecLineData>)
        requires
            old(ctx).wf(),
            argv@.len() == spec_argc(VecOpsType::VecOpPushWorldScale),
            forall|i: int| 0 <= i < argv@.len() ==> argv@[i].is_num(),
        ensures
            final(ctx).wf(),
            final(ctx)@ == spec_step(old(ctx)@, VecOpsType::VecOpPushWorldScale, spec_args(argv@)),
            r@ == spec_emit(old(ctx)@, VecOpsType::VecOpPushWorldScale, spec_args(argv@)),
    {
        let m = Mat3 {
            m00: *argv[0].cast_ref(),
            m01: 0,
            m02: 0,
            m10: 0,
            m11: *argv[1].cast_ref(),
            m12: 0,
            m20: 0,
            m21: 0,
            m22: SCALE,
        };
        ctx.world_trans_stack.push(m);
        ctx.current_world_trans = calc_trans_stack(&ctx.world_trans_stack);
        let out: Vec<VecLineData> = Vec::new();
        proof {
            let args = spec_args(argv@);
            assert(ctx@ =~= spec_step(old(ctx)@, VecOpsType::VecOpPushWorldScale, args));
            assert(out@ =~= spec_emit(old(ctx)@, VecOpsType::VecOpPushWorldScale, args));
        }
        out
    }
}

impl CommonOpPushRotate {
    pub fn name(&self) -> (r: Vec<&'static str>)
        ensures
            r@.len() == 2,
            r@[0]@ == "PUSH_ROTATE"@,
            r@[1]@ == "ROTATE"@,
    {
        vec!["PUSH_ROTATE", "ROTATE"]
    }

    pub fn argc(&self) -> (r: usize)
        ensures
            r == spec_argc(VecOpsType::VecOpPushRotate),
    {
        1
    }

    /// Push a rotation by the angle, in fixed-point radians, onto the
    /// local stack.
    pub fn operate(&self, ctx: &mut GenerateCtx, argv: &Vec<AnyData>) -> (r: Vec<VecLineData>)
        requires
            old(ctx).wf(),
            argv@.len() == spec_argc(VecOpsType::VecOpPushRotate),
            forall|i: int| 0 <= i < argv@.len() ==> argv@[i].is_num(),
        ensures
            final(ctx).wf(),
            final(ctx)@ == spec_step(old(ctx)@, VecOpsType::VecOpPushRotate, spec_args(argv@)),
            r@ == spec_emit(old(ctx)@, VecOpsType::VecOpPushRotate, spec_args(argv@)),
    {
        let angle = *argv[0].cast_ref();
        let (angle_sin, angle_cos) = sin_cos(angle);
        let m = Mat3 {
            m00: angle_cos,
            m01: fsub(0, angle_sin),
            m02: 0,
            m10: angle_sin,
            m11: angle_cos,
            m12: 0,
            m20: 0,
            m21: 0,
            m22: SCALE,
        };
        ctx.local_trans_stack.push(m);
        ctx.current_local_trans = calc_trans_stack(&ctx.local_trans_stack);
        let out: Vec<VecLineData> = Vec::new();
        proof {
            let args = spec_args(argv@);
            assert(m == spec_rotate_mat(args[0]));
            assert(ctx@ =~= spec_step(old(ctx)@, VecOpsType::VecOpPushRotate, args));
            assert(out@ =~= spec_emit(old(ctx)@, VecOpsType::VecOpPushRotate, args));
        }
        out
    }
}

impl CommonOpPushWorldRotate {
    pub fn name(&self) -> (r: Vec<&'static str>)
        ensures
            r@.len() == 2,
            r@[0]@ == "PUSH_WORLD_ROTATE"@,
            r@[1]@ == "WORLD_ROTATE"@,
    {
        vec!["PUSH_WORLD_ROTATE", "WORLD_ROTATE"]
    }

    pub fn argc(&self) -> (r: usize)
        ensures
            r == spec_argc(VecOpsType::VecOpPushWorldRotate),
    {
        1
    }

    /// Push a rotation by the angle, in fixed-point radians, onto the
    /// world stack.
    pub fn operate(&self, ctx: &mut GenerateCtx, argv: &Vec<AnyData>) -> (r: Vec<VecLineData>)
        requires
            old(ctx).wf(),
            argv@.len() == spec_argc(VecOpsType::VecOpPushWorldRotate),
            forall|i: int| 0 <= i < argv@.len() ==> argv@[i].is_num(),
        ensures
            final(ctx).wf(),
            final(ctx)@ == spec_step(old(ctx)@, VecOpsType::VecOpPushWorldRotate, spec_args(argv@)),
            r@ == spec_emit(old(ctx)@, VecOpsType::VecOpPushWorldRotate, spec_args(argv@)),
    {
        let angle = *argv[0].cast_ref();
        let (angle_sin, angle_cos) = sin_cos(angle);
        let m = Mat3 {
            m00: angle_cos,
            m01: fsub(0, angle_sin),
            m02: 0,
            m10: angle_sin,
            m11: angle_cos,
            m12: 0,
            m20: 0,
            m21: 0,
            m22: SCALE,
        };
        ctx.world_trans_stack.push(m);
        ctx.current_world_trans = calc_trans_stack(&ctx.world_trans_stack);
        let out: Vec<VecLineData> = Vec::new();
        proof {
            let args = spec_args(argv@);
            assert(m == spec_rotate_mat(args[0]));
            assert(ctx@ =~= spec_step(old(ctx)@, VecOpsType::VecOpPushWorldRotate, args));
            assert(out@ =~= spec_emit(old(ctx)@, VecOpsType::VecOpPushWorldRotate, args));
        }
        out
    }
}

impl CommonOpPushSkew {
    pub fn name(&self) -> (r: Vec<&'static str>)
        ensures
            r@.len() == 2,
            r@[0]@ == "PUSH_SKEW"@,
            r@[1]@ == "SKEW"@,
    {
        vec!["PUSH_SKEW", "SKEW"]
    }

    pub fn argc(&self) -> (r: usize)
        ensures
            r == spec_argc(VecOpsType::VecOpPushSkew),
    {
        2
    }

    /// Push an off-diagonal skew onto the local stack.
    pub fn operate(&self, ctx: &mut GenerateCtx, argv: &Vec<AnyData>) -> (r: Vec<VecLineData>)
        requires
            old(ctx).wf(),
            argv@.len() == spec_argc(VecOpsType::VecOpPushSkew),
            forall|i: int| 0 <= i < argv@.len() ==> argv@[i].is_num(),
        ensures
            final(ctx).wf(),
            final(ctx)@ == spec_step(old(ctx)@, VecOpsType::VecOpPushSkew, spec_args(argv@)),
            r@ == spec_emit(old(ctx)@, VecOpsType::VecOpPushSkew, spec_args(argv@)),
    {
        let m = Mat3 {
            m00: SCALE,
            m01: *argv[0].cast_ref(),
            m02: 0,
            m10: *argv[1].cast_ref(),
            m11: SCALE,
            m12: 0,
            m20: 0,
            m21: 0,
            m22: SCALE,
        };
        ctx.local_trans_stack.push(m);
        ctx.current_local_trans = calc_trans_stack(&ctx.local_trans_stack);
        let out: Vec<VecLineData> = Vec::new();
        proof {
            let args = spec_args(argv@);
            assert(ctx@ =~= spec_step(old(ctx)@, VecOpsType::VecOpPushSkew, args));
            assert(out@ =~= spec_emit(old(ctx)@, VecOpsType::VecOpPushSkew, args));
        }
        out
    }
}

impl CommonOpPushWorldSkew {
    pub fn name(&self) -> (r: Vec<&'static str>)
        ensures
            r@.len() == 2,
            r@[0]@ == "PUSH_WORLD_SKEW"@,
            r@[1]@ == "WORLD_SKEW"@,
    {
        vec!["PUSH_WORLD_SKEW", "WORLD_SKEW"]
    }

    pub fn argc(&self) -> (r: usize)
        ensures
            r == spec_argc(VecOpsType::VecOpPushWorldSkew),
    {
        2
    }

    /// Push an off-diagonal skew onto the world stack.
    pub fn operate(&self, ctx: &mut GenerateCtx, argv: &Vec<AnyData>) -> (r: Vec<VecLineData>)
        requires
            old(ctx).wf(),
            argv@.len() == spec_argc(VecOpsType::VecOpPushWorldSkew),
            forall|i: int| 0 <= i < argv@.len() ==> argv@[i].is_num(),
        ensures
            final(ctx).wf(),
            final(ctx)@ == spec_step(old(ctx)@, VecOpsType::VecOpPushWorldSkew, spec_args(argv@)),
            r@ == spec_emit(old(ctx)@, VecOpsType::VecOpPushWorldSkew, spec_args(argv@)),
    {
        let m = Mat3 {
            m00: SCALE,
            m01: *argv[0].cast_ref(),
            m02: 0,
            m10: *argv[1].cast_ref(),
            m11: SCALE,
            m12: 0,
            m20: 0,
            m21: 0,
            m22: SCALE,
        };
        ctx.world_trans_stack.push(m);
        ctx.current_world_trans = calc_trans_stack(&ctx.world_trans_stack);
        let out: Vec<VecLineData> = Vec::new();
        proof {
            let args = spec_args(argv@);
            assert(ctx@ =~= spec_step(old(ctx)@, VecOpsType::VecOpPushWorldSkew, args));
            assert(out@ =~= spec_emit(old(ctx)@, VecOpsType::VecOpPushWorldSkew, args));
        }
        out
    }
}

impl CommonOpPushTranslate {
    pub fn name(&self) -> (r: Vec<&'static str>)
        ensures
            r@.len() == 2,
            r@[0]@ == "PUSH_TRANSLATE"@,
            r@[1]@ == "TRANSLATE"@,
    {
        vec!["PUSH_TRANSLATE", "TRANSLATE"]
    }

    pub fn argc(&self) -> (r: usize)
        ensures
            r == spec_argc(VecOpsType::VecOpPushTranslate),
    {
        2
    }

    /// Push a translation onto the local stack.
    pub fn operate(&self, ctx: &mut GenerateCtx, argv: &Vec<AnyData>) -> (r: Vec<VecLineData>)
        requires
            old(ctx).wf(),
            argv@.len() == spec_argc(VecOpsType::VecOpPushTranslate),
            forall|i: int| 0 <= i < argv@.len() ==> argv@[i].is_num(),
        ensures
            final(ctx).wf(),
            final(ctx)@ == spec_step(old(ctx)@, VecOpsType::VecOpPushTranslate, spec_args(argv@)),
            r@ == spec_emit(old(ctx)@, VecOpsType::VecOpPushTranslate, spec_args(argv@)),
    {
        let m = Mat3 {
            m00: SCALE,
            m01: 0,
            m02: *argv[0].cast_ref(),
            m10: 0,
            m11: SCALE,
            m12: *argv[1].cast_ref(),
            m20: 0,
            m21: 0,
            m22: SCALE,
        };
        ctx.local_trans_stack.push(m);
        ctx.current_local_trans = calc_trans_stack(&ctx.local_trans_stack);
        let out: Vec<VecLineData> = Vec::new();
        proof {
            let args = spec_args(argv@);
            assert(ctx@ =~= spec_step(old(ctx)@, VecOpsType::VecOpPushTranslate, args));
            assert(out@ =~= spec_emit(old(ctx)@, VecOpsType::VecOpPushTranslate, args));
        }
        out
    }
}

impl CommonOpPushWorldTranslate {
    pub fn name(&self) -> (r: Vec<&'static str>)
        ensures
            r@.len() == 2,
            r@[0]@ == "PUSH_WORLD_TRANSLATE"@,
            r@[1]@ == "WORLD_TRANSLATE"@,
    {
        vec!["PUSH_WORLD_TRANSLATE", "WORLD_TRANSLATE"]
    }

    pub fn argc(&self) -> (r: usize)
        ensures
            r == spec_argc(VecOpsType::VecOpPushWorldTranslate),
    {
        2
    }

    /// Push a translation onto the world stack.
    pub fn operate(&self, ctx: &mut GenerateCtx, argv: &Vec<AnyData>) -> (r: Vec<VecLineData>)
        requires
            old(ctx).wf(),
            argv@.len() == spec_argc(VecOpsType::VecOpPushWorldTranslate),
            forall|i: int| 0 <= i < argv@.len() ==> argv@[i].is_num(),
        ensures
            final(ctx).wf(),
            final(ctx)@ == spec_step(old(ctx)@, VecOpsType::VecOpPushWorldTranslate, spec_args(argv@)),
            r@ == spec_emit(old(ctx)@, VecOpsType::VecOpPushWorldTranslate, spec_args(argv@)),
    {
        let m = Mat3 {
            m00: SCALE,
            m01: 0,
            m02: *argv[0].cast_ref(),
            m10: 0,
            m11: SCALE,
            m12: *argv[1].cast_ref(),
            m20: 0,
            m21: 0,
            m22: SCALE,
        };
        ctx.world_trans_stack.push(m);
        ctx.current_world_trans = calc_trans_stack(&ctx.world_trans_stack);
        let out: Vec<VecLineData> = Vec::new();
        proof {
            let args = spec_args(argv@);
            assert(ctx@ =~= spec_step(old(ctx)@, VecOpsType::VecOpPushWorldTranslate, args));
            assert(out@ =~= spec_emit(old(ctx)@, VecOpsType::VecOpPushWorldTranslate, args));
        }
        out
    }
}

} // verus!
