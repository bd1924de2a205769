//! The one interface through which target code is built: create a block,
//! move the insertion cursor, emit an instruction, name a parameter.
use vstd::prelude::*;

use crate::llir::{insts_view, Inst, LlFunction, Value};

verus! {

/// A function under construction with an insertion cursor (a block index).
pub struct Builder {
    pub func: LlFunction,
    pub cursor: usize,
}

impl Builder {
    /// True when `self` and `other` differ at most in their blocks.
    pub open spec fn same_but_blocks(self, other: Builder) -> bool {
        &&& self.func@.name == other.func@.name
        &&& self.func@.ty == other.func@.ty
        &&& self.func@.param_names == other.func@.param_names
        &&& self.cursor == other.cursor
    }

    pub fn new(func: LlFunction) -> (r: Builder)
        ensures
            r.func == func,
            r.cursor == 0,
    {
        Builder { func, cursor: 0 }
    }

    /// Appends an empty block and returns its index.
    pub fn append_block(&mut self) -> (r: usize)
        requires
            old(self).func@.blocks.len() < usize::MAX,
        ensures
            r == old(self).func@.blocks.len(),
            final(self).func@.blocks == old(self).func@.blocks.push(Seq::empty()),
            final(self).same_but_blocks(*old(self)),
    {
        let r = self.func.blocks.len();
        self.func.blocks.push(Vec::new());
        assert(final(self).func@.blocks =~= old(self).func@.blocks.push(Seq::empty())) by {
            assert(insts_view(Seq::<Inst>::empty()) =~= Seq::empty());
        }
        r
    }

    /// Moves the cursor to the end of `block`.
    pub fn position_at_end(&mut self, block: usize)
        requires
            block < old(self).func@.blocks.len(),
        ensures
            final(self).cursor == block,
            final(self).func == old(self).func,
    {
        self.cursor = block;
    }

    /// Appends `inst` to the block under the cursor; the result names it.
    pub fn build(&mut self, inst: Inst) -> (r: Value)
        requires
            old(self).cursor < old(self).func@.blocks.len(),
        ensures
            r == Value::Inst(old(self).func@.blocks[old(self).cursor as int].len() as usize),
            final(self).func@.blocks == old(self).func@.blocks.update(
                old(self).cursor as int,
                old(self).func@.blocks[old(self).cursor as int].push(inst@),
            ),
            final(self).same_but_blocks(*old(self)),
    {
        let c = self.cursor;
        let r = Value::Inst(self.func.blocks[c].len());
        self.func.blocks[c].push(inst);
        assert(final(self).func@.blocks =~= old(self).func@.blocks.update(
            c as int,
            old(self).func@.blocks[c as int].push(inst@),
        )) by {
            assert(insts_view(self.func.blocks@[c as int]@) =~= insts_view(
                old(self).func.blocks@[c as int]@,
            ).push(inst@));
        }
        r
    }

    /// Gives the next parameter its source-level name.
    pub fn name_param(&mut self, name: String)
        ensures
            final(self).func@.param_names == old(self).func@.param_names.push(name@),
            final(self).func@.name == old(self).func@.name,
            final(self).func@.ty == old(self).func@.ty,
            final(self).func@.blocks == old(self).func@.blocks,
            final(self).cursor == old(self).cursor,
    {
        self.func.param_names.push(name);
        assert(final(self).func@.param_names =~= old(self).func@.param_names.push(name@));
    }
}

} // verus!
