//! Points, polylines, and the program generator.
//!
//! `VecLineData` is a point: a pair of fixed-point coordinates.
//! `VecLineGen` owns the parsed command sequence (the program) and replays
//! it into polylines.

use vstd::prelude::*;

use crate::any_data::AnyData;
use crate::interfaces::Command;
use crate::matrix::{apply_point, spec_apply, spec_compose, Mat3};
use crate::ops::{spec_emit, spec_initial_ctx, spec_step, CtxView, GenerateCtx};
use crate::syntax::CommonVecOpSyntax;

verus! {

/// A point; equality is exact equality of both coordinates.
#[derive(Clone, Copy, Debug, PartialEq, Eq, Structural)]
pub struct VecLineData {
    pub x: i64,
    pub y: i64,
}

impl VecLineData {
    pub fn new(x: i64, y: i64) -> (r: VecLineData)
        ensures
            r == (VecLineData { x, y }),
    {
        VecLineData { x, y }
    }

    /// The two coordinates, boxed as plain values.
    pub fn pos(&self) -> (r: [AnyData; 2])
        ensures
            r@ == seq![AnyData::Num(self.x), AnyData::Num(self.y)],
    {
        [AnyData::Num(self.x), AnyData::Num(self.y)]
    }

    /// Exact coordinate equality.
    pub fn is_same(&self, another_data: &VecLineData) -> (r: bool)
        ensures
            r == (*self == *another_data),
    {
        self.x == another_data.x && self.y == another_data.y
    }

    /// This point transformed by `matrix` as a homogeneous column.
    pub fn matrix(&self, matrix: &Mat3) -> (r: VecLineData)
        ensures
            r == spec_point_matrix(*self, *matrix),
    {
        let (x, y) = apply_point(matrix, self.x, self.y);
        VecLineData { x, y }
    }
}

/// `p` transformed by `m`.
pub open spec fn spec_point_matrix(p: VecLineData, m: Mat3) -> VecLineData {
    VecLineData { x: spec_apply(m, p.x, p.y).0, y: spec_apply(m, p.x, p.y).1 }
}

/// The kind of a drawing command.
#[derive(Clone, Copy, Debug, PartialEq, Eq, Structural)]
pub enum VecOpsType {
    VecOpMove,
    VecOpLine,
    VecOpQuad,
    VecOpCubi,
    VecOpEnd,
    VecOpPushTrans,
    VecOpPopTrans,
    VecOpPushScale,
    VecOpPushRotate,
    VecOpPushSkew,
    VecOpPushTranslate,
    VecOpPushWorldTrans,
    VecOpPopWorldTrans,
    VecOpPushWorldScale,
    VecOpPushWorldRotate,
    VecOpPushWorldSkew,
    VecOpPushWorldTranslate,
}

/// The polylines accumulated by a generation run: the closed polylines,
/// the growing one, and the interpreter state.
#[verifier::ext_equal]
pub struct RunState {
    pub total: Seq<Seq<VecLineData>>,
    pub buffer: Seq<VecLineData>,
    pub ctx: CtxView,
}

/// The seed of every run: one synthetic single-point polyline at the
/// origin, an empty growing polyline, and the initial context.
pub open spec fn spec_initial_run_state() -> RunState {
    RunState {
        total: seq![seq![VecLineData { x: 0, y: 0 }]],
        buffer: Seq::empty(),
        ctx: spec_initial_ctx(),
    }
}

/// Replay the commands from index `i` on.  Every command advances the
/// context; its geometry is kept only when its index lies in
/// `[start, end)`.  A kept emission extends the growing polyline while
/// the context is grouping; otherwise it closes that polyline (if it has
/// any points) and starts a new one.
pub open spec fn spec_run(ops: Seq<Command>, i: int, st: RunState, start: int, end: int) -> RunState
    decreases ops.len() - i,
{
    if i < 0 || i >= ops.len() {
        st
    } else {
        let c = ops[i];
        let em = spec_emit(st.ctx, c.dsc, c.args());
        let ctx2 = spec_step(st.ctx, c.dsc, c.args());
        let st2 = if start <= i < end && em.len() > 0 {
            if ctx2.grouping {
                RunState { buffer: st.buffer + em, ctx: ctx2, ..st }
            } else {
                RunState {
                    total: if st.buffer.len() > 0 {
                        st.total.push(st.buffer)
                    } else {
                        st.total
                    },
                    buffer: em,
                    ctx: ctx2,
                }
            }
        } else {
            RunState { ctx: ctx2, ..st }
        };
        spec_run(ops, i + 1, st2, start, end)
    }
}

/// One polyline with every point transformed by `m`.
pub open spec fn spec_apply_poly(pl: Seq<VecLineData>, m: Mat3) -> Seq<VecLineData> {
    pl.map_values(|p: VecLineData| spec_point_matrix(p, m))
}

/// Every point of every polyline transformed by `m`.
pub open spec fn spec_world_apply(total: Seq<Seq<VecLineData>>, m: Mat3) -> Seq<Seq<VecLineData>> {
    total.map_values(|pl: Seq<VecLineData>| spec_apply_poly(pl, m))
}

/// The views of a vector of polylines.
pub open spec fn spec_polylines_view(s: Seq<Vec<VecLineData>>) -> Seq<Seq<VecLineData>> {
    s.map_values(|v: Vec<VecLineData>| v@)
}

/// The polylines a program produces over `[start, end)`: the run's
/// output, with the final growing polyline closed, and the world
/// transform left at the end of the run applied to every point.
pub open spec fn spec_generate(ops: Seq<Command>, start: int, end: int) -> Seq<Seq<VecLineData>> {
    let st = spec_run(ops, 0, spec_initial_run_state(), start, end);
    let total = if st.buffer.len() > 0 {
        st.total.push(st.buffer)
    } else {
        st.total
    };
    spec_world_apply(total, spec_compose(st.ctx.wstack))
}

/// The program: an ordered command sequence, replayed on demand.
#[derive(Debug, Clone)]
pub struct VecLineGen {
    ops: Vec<Command>,
}

impl View for VecLineGen {
    type V = Seq<Command>;

    closed spec fn view(&self) -> Seq<Command> {
        self.ops@
    }
}

impl VecLineGen {
    /// Every held command is fully bound.
    pub open spec fn wf(&self) -> bool {
        forall|i: int| 0 <= i < self@.len() ==> self@[i].wf()
    }

    pub fn new(ops: Vec<Command>) -> (r: Self)
        requires
            forall|i: int| 0 <= i < ops@.len() ==> ops@[i].wf(),
        ensures
            r@ == ops@,
            r.wf(),
    {
        VecLineGen { ops }
    }

    /// Append a bound command to the program.
    pub fn add(&mut self, op: Command)
        requires
            old(self).wf(),
            op.wf(),
        ensures
            final(self)@ == old(self)@.push(op),
            final(self).wf(),
    {
        self.ops.push(op);
        proof {
            assert forall|i: int| 0 <= i < self@.len() implies self@[i].wf() by {
                if i < old(self)@.len() {
                    assert(self@[i] == old(self)@[i]);
                } else {
                    assert(self@[i] == op);
                }
            }
        }
    }

    /// The number of commands; an upper bound for any generation range.
    pub fn len(&self) -> (r: usize)
        ensures
            r == self@.len(),
    {
        self.ops.len()
    }

    /// The syntax this program is written in.
    pub fn command_syntax(&self) -> (r: CommonVecOpSyntax)
        ensures
            r == (CommonVecOpSyntax {}),
    {
        CommonVecOpSyntax {}
    }

    /// Replay the program over the index range and return the polylines.
    pub fn generate(&self, range: core::ops::Range<i64>) -> (r: Vec<Vec<VecLineData>>)
        requires
            self.wf(),
            self@.len() <= i64::MAX,
        ensures
            spec_polylines_view(r@) == spec_generate(self@, range.start as int, range.end as int),
    {
        let ghost start: int = range.start as int;
        let ghost end: int = range.end as int;
        let mut gen_ctx = GenerateCtx::default();
        let mut points_total: Vec<Vec<VecLineData>> = Vec::new();
        let mut points: Vec<VecLineData> = Vec::new();
        let mut first: Vec<VecLineData> = Vec::new();
        first.push(VecLineData::new(0, 0));
        points_total.push(first);
        let ghost fin = spec_run(self@, 0, spec_initial_run_state(), start, end);
        proof {
            let st0 = RunState {
                total: spec_polylines_view(points_total@),
                buffer: points@,
                ctx: gen_ctx@,
            };
            assert(st0 =~~= spec_initial_run_state());
        }
        let mut i: usize = 0;
        while i < self.ops.len()
            invariant
                self.wf(),
                self@.len() <= i64::MAX,
                i <= self@.len(),
                gen_ctx.wf(),
                start == range.start as int,
                end == range.end as int,
                fin == spec_run(
                    self@,
                    i as int,
                    RunState {
                        total: spec_polylines_view(points_total@),
                        buffer: points@,
                        ctx: gen_ctx@,
                    },
                    start,
                    end,
                ),
            decreases self@.len() - i,
        {
            let ghost pre = RunState {
                total: spec_polylines_view(points_total@),
                buffer: points@,
                ctx: gen_ctx@,
            };
            let op = &self.ops[i];
            let mut converted = op.operate(&mut gen_ctx);
            let counter: i64 = i as i64;
            if range.start <= counter && counter < range.end && converted.len() > 0 {
                if gen_ctx.grouping {
                    points.append(&mut converted);
                } else {
                    if points.len() > 0 {
                        points_total.push(points);
                    }
                    points = converted;
                }
            }
            proof {
                let c = self@[i as int];
                let em = spec_emit(pre.ctx, c.dsc, c.args());
                let ctx2 = spec_step(pre.ctx, c.dsc, c.args());
                let st2 = if start <= (i as int) && (i as int) < end && em.len() > 0 {
                    if ctx2.grouping {
                        RunState { buffer: pre.buffer + em, ctx: ctx2, ..pre }
                    } else {
                        RunState {
                            total: if pre.buffer.len() > 0 {
                                pre.total.push(pre.buffer)
                            } else {
                                pre.total
                            },
                            buffer: em,
                            ctx: ctx2,
                        }
                    }
                } else {
                    RunState { ctx: ctx2, ..pre }
                };
                let now = RunState {
                    total: spec_polylines_view(points_total@),
                    buffer: points@,
                    ctx: gen_ctx@,
                };
                assert(now =~~= st2);
            }
            i = i + 1;
        }
        if points.len() > 0 {
            points_total.push(points);
        }
        let wm = gen_ctx.current_world_trans;
        let ghost total2 = spec_polylines_view(points_total@);
        proof {
            let st = RunState { total: fin.total, buffer: fin.buffer, ctx: fin.ctx };
            assert(fin =~~= st);
            if fin.buffer.len() > 0 {
                assert(total2 =~~= fin.total.push(fin.buffer));
            } else {
                assert(total2 =~~= fin.total);
            }
        }
        let mut out: Vec<Vec<VecLineData>> = Vec::new();
        let mut a: usize = 0;
        while a < points_total.len()
            invariant
                a <= points_total@.len(),
                out@.len() == a,
                forall|j: int|
                    0 <= j < a ==> out@[j]@ == spec_apply_poly(points_total@[j]@, wm),
            decreases points_total@.len() - a,
        {
            let pl = &points_total[a];
            let mut npl: Vec<VecLineData> = Vec::new();
            let mut b: usize = 0;
            while b < pl.len()
                invariant
                    b <= pl@.len(),
                    npl@.len() == b,
                    forall|j: int| 0 <= j < b ==> npl@[j] == spec_point_matrix(pl@[j], wm),
                decreases pl@.len() - b,
            {
                npl.push(pl[b].matrix(&wm));
                b = b + 1;
            }
            proof {
                assert(npl@ =~= spec_apply_poly(pl@, wm));
            }
            out.push(npl);
            a = a + 1;
        }
        proof {
            assert(spec_polylines_view(out@) =~~= spec_world_apply(total2, wm));
            assert(spec_polylines_view(out@) =~~= spec_generate(self@, start, end));
        }
        out
    }
}

proof fn lemma_run_end_clamped(
    ops: Seq<Command>,
    i: int,
    st: RunState,
    start: int,
    end1: int,
    end2: int,
)
    requires
        i >= 0,
        ops.len() <= end1,
        ops.len() <= end2,
    ensures
        spec_run(ops, i, st, start, end1) == spec_run(ops, i, st, start, end2),
    decreases ops.len() - i,
{
    if i < ops.len() {
        let c = ops[i];
        let em = spec_emit(st.ctx, c.dsc, c.args());
        let ctx2 = spec_step(st.ctx, c.dsc, c.args());
        let st2 = if start <= i < end1 && em.len() > 0 {
            if ctx2.grouping {
                RunState { buffer: st.buffer + em, ctx: ctx2, ..st }
            } else {
                RunState {
                    total: if st.buffer.len() > 0 {
                        st.total.push(st.buffer)
                    } else {
                        st.total
                    },
                    buffer: em,
                    ctx: ctx2,
                }
            }
        } else {
            RunState { ctx: ctx2, ..st }
        };
        lemma_run_end_clamped(ops, i + 1, st2, start, end1, end2);
    }
}

/// Generation is a pure function of the program and the range: two
/// runs over identical inputs produce identical polylines, bit for bit.
pub proof fn lemma_generate_deterministic(
    a: Seq<Seq<VecLineData>>,
    b: Seq<Seq<VecLineData>>,
    ops: Seq<Command>,
    start: int,
    end: int,
)
    requires
        a == spec_generate(ops, start, end),
        b == spec_generate(ops, start, end),
    ensures
        a == b,
{
}

/// The command count is a stable upper bound for a generation range:
/// any range end at or past the program length yields the same
/// polylines, so `len` caps what a caller ever needs to ask for.
pub proof fn lemma_generate_end_clamped(ops: Seq<Command>, start: int, end1: int, end2: int)
    requires
        ops.len() <= end1,
        ops.len() <= end2,
    ensures
        spec_generate(ops, start, end1) == spec_generate(ops, start, end2),
{
    lemma_run_end_clamped(ops, 0, spec_initial_run_state(), start, end1, end2);
}

impl Default for VecLineGen {
    fn default() -> (r: Self)
        ensures
            r@ == Seq::<Command>::empty(),
            r.wf(),
    {
        VecLineGen { ops: Vec::new() }
    }
}

} // verus!
