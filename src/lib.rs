//! An experimental compiler backend core: lowers one function of a typed,
//! control-flow-graph-shaped mid-level IR into a target IR of basic blocks,
//! stack slots and SSA-style instructions.
pub mod builder;
pub mod codegen;
pub mod laws;
pub mod llir;
pub mod lowering;
pub mod mir;
pub mod place;
pub mod support;
pub mod ty;

use vstd::prelude::*;

use crate::builder::Builder;
use crate::llir::LlFunction;
use crate::lowering::{local_place, supported, target_block};
use crate::mir::Body;
use crate::place::TPlace;

verus! {

/// The native code generation and linking backend that the front end's
/// pipeline asks for. It produces nothing: output comes from the lowering.
pub struct DummyBackend;

/// Per-function lowering state: the function being built with its cursor,
/// the body being lowered, one storage descriptor per local and one target
/// block per source block.
pub struct FunctionCx<'a> {
    pub bx: Builder,
    pub mir: &'a Body,
    pub locals: Vec<TPlace>,
    pub basic_blocks: Vec<usize>,
}

impl<'a> FunctionCx<'a> {
    pub fn new(llfn: LlFunction, mir: &'a Body) -> (r: FunctionCx<'a>)
        ensures
            r.bx.func == llfn,
            r.bx.cursor == 0,
            r.mir == mir,
            r.locals@.len() == 0,
            r.basic_blocks@.len() == 0,
    {
        FunctionCx { bx: Builder::new(llfn), mir, locals: Vec::new(), basic_blocks: Vec::new() }
    }

    /// The state after the header pass: every local's place and every
    /// block's handle are established, and all blocks exist.
    pub open spec fn ready(self) -> bool {
        let body = *self.mir;
        &&& body.wf()
        &&& supported(body)
        &&& self.locals@.len() == body.local_decls@.len()
        &&& forall|l: int| 0 <= l < self.locals@.len() ==> #[trigger] self.locals@[l] == local_place(body, l)
        &&& self.basic_blocks@.len() == body.basic_blocks@.len()
        &&& forall|b: int| 0 <= b < self.basic_blocks@.len() ==> #[trigger] self.basic_blocks@[b] == target_block(b)
        &&& self.bx.func@.blocks.len() == body.basic_blocks@.len() + 1
    }

    /// Same body, places and block handles as `other`.
    pub open spec fn same_tables(self, other: FunctionCx<'a>) -> bool {
        &&& self.mir == other.mir
        &&& self.locals == other.locals
        &&& self.basic_blocks == other.basic_blocks
    }
}

} // verus!
