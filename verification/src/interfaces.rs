//! Shared interface types: source positions, parse failures, and the
//! bound command.

use vstd::prelude::*;

use crate::any_data::AnyData;
use crate::gen::{VecLineData, VecOpsType};
use crate::ops::{
    spec_argc, spec_args, spec_emit, spec_step, CommonOpCUBI, CommonOpEND, CommonOpLINE,
    CommonOpMOVE, CommonOpPopTrans, CommonOpPopWorldTrans, CommonOpPushRotate, CommonOpPushScale,
    CommonOpPushSkew, CommonOpPushTrans, CommonOpPushTranslate, CommonOpPushWorldRotate,
    CommonOpPushWorldScale, CommonOpPushWorldSkew, CommonOpPushWorldTrans,
    CommonOpPushWorldTranslate, CommonOpQUAD, GenerateCtx,
};

verus! {

/// A position in the source text: display row and column (both
/// zero-based) and the absolute character offset.
#[derive(Debug, Clone, Copy, PartialEq, Eq, Structural, Default)]
pub struct Cursor {
    pub row: usize,
    pub col: usize,
    pub pos: usize,
}

/// A parse failure: a message and the exact position of the offending
/// token.
#[derive(Debug, Clone)]
pub struct ParseError {
    pub msg: String,
    pub cursor: Cursor,
}

impl Default for ParseError {
    fn default() -> (r: Self)
        ensures
            r.msg@ == "Internal Error"@,
            r.cursor == (Cursor { row: 0, col: 0, pos: 0 }),
    {
        ParseError { msg: "Internal Error".to_owned(), cursor: Cursor { row: 0, col: 0, pos: 0 } }
    }
}

/// A command: its kind together with the bound argument vector, whose
/// length always equals the kind's declared argument count.
#[derive(Debug, Clone)]
pub struct Command {
    pub dsc: VecOpsType,
    pub argv: Vec<AnyData>,
}

impl Command {
    /// The argument vector is fully bound: right length, all numbers.
    pub open spec fn wf(&self) -> bool {
        &&& self.argv@.len() == spec_argc(self.dsc)
        &&& forall|i: int| 0 <= i < self.argv@.len() ==> self.argv@[i].is_num()
    }

    /// The bound numeric arguments.
    pub open spec fn args(&self) -> Seq<i64> {
        spec_args(self.argv@)
    }

    /// Bind the argument vector; the caller supplies exactly the
    /// declared number of numeric values.
    pub fn pack(&mut self, argv: Vec<AnyData>)
        requires
            argv@.len() == spec_argc(old(self).dsc),
            forall|i: int| 0 <= i < argv@.len() ==> argv@[i].is_num(),
        ensures
            final(self).dsc == old(self).dsc,
            final(self).argv@ == argv@,
            final(self).wf(),
    {
        self.argv = argv;
    }

    /// Run this command against the context, returning the emitted
    /// points.
    pub fn operate(&self, ctx: &mut GenerateCtx) -> (r: Vec<VecLineData>)
        requires
            self.wf(),
            old(ctx).wf(),
        ensures
            final(ctx).wf(),
            final(ctx)@ == spec_step(old(ctx)@, self.dsc, self.args()),
            r@ == spec_emit(old(ctx)@, self.dsc, self.args()),
    {
        match self.dsc {
            VecOpsType::VecOpMove => CommonOpMOVE {}.operate(ctx, &self.argv),
            VecOpsType::VecOpLine => CommonOpLINE {}.operate(ctx, &self.argv),
            VecOpsType::VecOpQuad => CommonOpQUAD {}.operate(ctx, &self.argv),
            VecOpsType::VecOpCubi => CommonOpCUBI {}.operate(ctx, &self.argv),
            VecOpsType::VecOpEnd => CommonOpEND {}.operate(ctx, &self.argv),
            VecOpsType::VecOpPushTrans => CommonOpPushTrans {}.operate(ctx, &self.argv),
            VecOpsType::VecOpPopTrans => CommonOpPopTrans {}.operate(ctx, &self.argv),
            VecOpsType::VecOpPushScale => CommonOpPushScale {}.operate(ctx, &self.argv),
            VecOpsType::VecOpPushRotate => CommonOpPushRotate {}.operate(ctx, &self.argv),
            VecOpsType::VecOpPushSkew => CommonOpPushSkew {}.operate(ctx, &self.argv),
            VecOpsType::VecOpPushTranslate => CommonOpPushTranslate {}.operate(ctx, &self.argv),
            VecOpsType::VecOpPushWorldTrans => CommonOpPushWorldTrans {}.operate(ctx, &self.argv),
            VecOpsType::VecOpPopWorldTrans => CommonOpPopWorldTrans {}.operate(ctx, &self.argv),
            VecOpsType::VecOpPushWorldScale => CommonOpPushWorldScale {}.operate(ctx, &self.argv),
            VecOpsType::VecOpPushWorldRotate => CommonOpPushWorldRotate {}.operate(ctx, &self.argv),
            VecOpsType::VecOpPushWorldSkew => CommonOpPushWorldSkew {}.operate(ctx, &self.argv),
            VecOpsType::VecOpPushWorldTranslate => CommonOpPushWorldTranslate {}.operate(
                ctx,
                &self.argv,
            ),
        }
    }
}

/// Encoding of source text for an outside consumer; implemented by
/// callers of the library.
pub trait IEncoder {
    fn encode(&self, input: &str) -> String;
}

} // verus!
