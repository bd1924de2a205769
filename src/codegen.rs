//! The two passes of the lowering: the header pass establishes storage and
//! blocks, the body pass lowers statements and terminators.
use vstd::arithmetic::power2::lemma2_to64;
use vstd::prelude::*;

use crate::llir::{Case, Imm, Inst, InstV, IntPredicate, LlFunction, Module, Value};
use crate::lowering::{
    body_fn_type, lowered_blocks, lowered_function,
    stmts_insts,
    alloca_seq, allocas_upto, entry_insts, local_place, supported, target_block,
    block_insts, materialize, switch_case, term_insts, term_supported, stmt_insts, stmt_supported, operand_supported, operand_ty, operand_value, truncate,
};
use crate::mir::{layout_of, spec_layout_of, BinOp, Body, Constant, Operand, Rvalue, Statement, SwitchCase, Terminator, Ty};
use crate::place::{StorageCell, TPlace};
use crate::ty::{fn_sig_to_llvm_fn_type, is_mappable, ty_to_llvm_type};
use crate::FunctionCx;

verus! {

pub open spec fn is_width(w: u32) -> bool {
    w == 1 || w == 8 || w == 16 || w == 32 || w == 64 || w == 128
}

/// Keeps the low `width` bits of `bits`.
pub fn truncate_bits(bits: u128, width: u32) -> (r: u128)
    requires
        is_width(width),
    ensures
        r == truncate(bits, width),
{
    proof {
        lemma2_to64();
    }
    if width == 1 {
        bits % 2
    } else if width == 8 {
        bits % 0x100
    } else if width == 16 {
        bits % 0x1_0000
    } else if width == 32 {
        bits % 0x1_0000_0000
    } else if width == 64 {
        bits % 0x1_0000_0000_0000_0000
    } else {
        bits
    }
}

/// The immediate for an integer constant.
pub fn const_imm(c: Constant) -> (r: Imm)
    requires
        operand_supported(Operand::Constant(c)),
    ensures
        r == materialize(c),
{
    let width = c.ty.int_width();
    Imm { width, bits: truncate_bits(c.bits, width) }
}


proof fn lemma_integral_not_zst(ty: Ty)
    requires
        ty.spec_is_integral(),
    ensures
        !ty.is_zst(),
{
    match ty {
        Ty::Int(i) => match i {
            _ => {},
        },
        _ => {},
    }
}

proof fn lemma_int_like_not_zst(ty: Ty)
    requires
        ty.is_int_like(),
    ensures
        !ty.is_zst(),
        is_width(ty.spec_int_width()),
{
    match ty {
        Ty::Int(i) => match i {
            _ => {},
        },
        Ty::Uint(u) => match u {
            _ => {},
        },
        _ => {},
    }
}

/// A local's place before any storage is bound.
pub open spec fn unbound_place(body: Body, l: int) -> TPlace {
    TPlace { ty_and_layout: spec_layout_of(body.local_ty(l)), llval: StorageCell::Unbound }
}

impl<'a> FunctionCx<'a> {
    /// Resolves an operand: a local reads as its storage (nothing when it is
    /// zero-sized), a constant as an immediate.
    pub fn codegen_operand(&self, operand: &Operand) -> (r: TPlace)
        requires
            self.ready(),
            operand.local_in(self.mir.local_decls@.len()),
            operand_supported(*operand),
        ensures
            r.ty_and_layout == crate::mir::spec_layout_of(operand_ty(*self.mir, *operand)),
            r.llval.value() == operand_value(*self.mir, *operand),
    {
        match *operand {
            Operand::Copy(l) | Operand::Move(l) => {
                let place = self.locals[l];
                if place.ty_and_layout.is_zst() {
                    TPlace { ty_and_layout: place.ty_and_layout, llval: StorageCell::Unbound }
                } else {
                    place
                }
            },
            Operand::Constant(c) => {
                TPlace { ty_and_layout: layout_of(c.ty), llval: StorageCell::Bound(Value::Imm(const_imm(c))) }
            },
        }
    }
    /// Lowers one assignment into the block under the cursor.
    pub fn codegen_statement(&mut self, stmt: &Statement)
        requires
            old(self).ready(),
            old(self).bx.cursor < old(self).bx.func@.blocks.len(),
            stmt.locals_in(old(self).mir.local_decls@.len()),
            stmt_supported(*old(self).mir, *stmt),
        ensures
            final(self).ready(),
            final(self).same_tables(*old(self)),
            final(self).bx.same_but_blocks(old(self).bx),
            final(self).bx.func@.blocks == old(self).bx.func@.blocks.update(
                old(self).bx.cursor as int,
                old(self).bx.func@.blocks[old(self).bx.cursor as int] + stmt_insts(
                    *old(self).mir,
                    *stmt,
                    old(self).bx.func@.blocks[old(self).bx.cursor as int].len() as int,
                ),
            ),
    {
        let ghost body = *self.mir;
        let ghost c = self.bx.cursor as int;
        let ghost b0 = self.bx.func@.blocks[c];
        if let Statement::Assign { place, rvalue } = *stmt {
            match rvalue {
                Rvalue::Use(operand) => {
                    let v = self.codegen_operand(&operand).load_scalar(&mut self.bx);
                    let ghost b1 = self.bx.func@.blocks[c];
                    let dest = self.locals[place];
                    v.store(&mut self.bx, &dest);
                    assert(self.bx.func@.blocks[c] =~= b0 + stmt_insts(body, *stmt, b0.len() as int));
                },
                Rvalue::BinaryOp(bin_op, lhs, rhs) => {
                    let l = self.codegen_operand(&lhs).load_scalar(&mut self.bx);
                    let ghost b1 = self.bx.func@.blocks[c];
                    let r = self.codegen_operand(&rhs).load_scalar(&mut self.bx);
                    let ghost b2 = self.bx.func@.blocks[c];
                    proof {
                        lemma_integral_not_zst(operand_ty(body, lhs));
                        lemma_integral_not_zst(operand_ty(body, rhs));
                    }
                    let lhs_val = l.llval();
                    let rhs_val = r.llval();
                    let lhs_ty = l.ty();
                    let inst = match bin_op {
                        BinOp::Add => Inst::Add { lhs: lhs_val, rhs: rhs_val },
                        BinOp::Sub => Inst::Sub { lhs: lhs_val, rhs: rhs_val },
                        BinOp::Eq => Inst::ICmp { pred: IntPredicate::Eq, lhs: lhs_val, rhs: rhs_val },
                        BinOp::Lt => Inst::ICmp {
                            pred: if lhs_ty.is_signed() {
                                IntPredicate::Slt
                            } else {
                                IntPredicate::Ult
                            },
                            lhs: lhs_val,
                            rhs: rhs_val,
                        },
                        BinOp::Le => Inst::ICmp {
                            pred: if lhs_ty.is_signed() {
                                IntPredicate::Sle
                            } else {
                                IntPredicate::Ule
                            },
                            lhs: lhs_val,
                            rhs: rhs_val,
                        },
                        _ => Inst::RetVoid,
                    };
                    let tmp = self.bx.build(inst);
                    let ghost b3 = self.bx.func@.blocks[c];
                    let dest = self.locals[place];
                    let result = TPlace { ty_and_layout: l.ty_and_layout, llval: StorageCell::Bound(tmp) };
                    result.store(&mut self.bx, &dest);
                    assert(self.bx.func@.blocks[c] =~= b0 + stmt_insts(body, *stmt, b0.len() as int));
                },
                Rvalue::Other => {},
            }
        }
        assert(self.bx.func@.blocks =~= old(self).bx.func@.blocks.update(
            c,
            b0 + stmt_insts(body, *stmt, b0.len() as int),
        ));
    }
    /// Lowers the terminator of a block into the block under the cursor.
    pub fn codegen_terminator(&mut self, term: &Terminator)
        requires
            old(self).ready(),
            old(self).bx.cursor < old(self).bx.func@.blocks.len(),
            term.refs_in(old(self).mir.local_decls@.len(), old(self).mir.basic_blocks@.len()),
            term_supported(*old(self).mir, *term),
        ensures
            final(self).ready(),
            final(self).same_tables(*old(self)),
            final(self).bx.same_but_blocks(old(self).bx),
            final(self).bx.func@.blocks == old(self).bx.func@.blocks.update(
                old(self).bx.cursor as int,
                old(self).bx.func@.blocks[old(self).bx.cursor as int] + term_insts(
                    *old(self).mir,
                    *term,
                    old(self).bx.func@.blocks[old(self).bx.cursor as int].len() as int,
                ),
            ),
    {
        let ghost body = *self.mir;
        let ghost c = self.bx.cursor as int;
        let ghost b0 = self.bx.func@.blocks[c];
        match term {
            Terminator::Goto { target } => {
                let bb = self.basic_blocks[*target];
                self.bx.build(Inst::Br { target: bb });
                assert(self.bx.func@.blocks[c] =~= b0 + term_insts(body, *term, b0.len() as int));
            },
            Terminator::SwitchInt { discr, cases, otherwise } => {
                let operand = self.codegen_operand(discr).load_scalar(&mut self.bx);
                let width = operand.ty().int_width();
                assert(forall|j: int| 0 <= j < cases@.len() ==> #[trigger] cases@[j].target < body.basic_blocks@.len());
                let mut llcases: Vec<Case> = Vec::new();
                let mut i: usize = 0;
                while i < cases.len()
                    invariant
                        self.ready(),
                        *self.mir == body,
                        term.refs_in(body.local_decls@.len(), body.basic_blocks@.len()),
                        forall|j: int| 0 <= j < cases@.len() ==> #[trigger] cases@[j].target < body.basic_blocks@.len(),
                        width == operand_ty(body, *discr).spec_int_width(),
                        is_width(width),
                        i <= cases@.len(),
                        llcases@ =~= cases@.subrange(0, i as int).map_values(
                            |k: SwitchCase| switch_case(k, width),
                        ),
                    decreases cases@.len() - i,
                {
                    let case = cases[i];
                    let bits = truncate_bits(case.value, width);
                    let target = self.basic_blocks[case.target];
                    llcases.push(Case { value: Imm { width, bits }, target });
                    i = i + 1;
                    assert(llcases@ =~= cases@.subrange(0, i as int).map_values(
                        |k: SwitchCase| switch_case(k, width),
                    ));
                }
                assert(cases@.subrange(0, i as int) =~= cases@);
                proof {
                    lemma_int_like_not_zst(operand_ty(body, *discr));
                }
                let v = operand.llval();
                let default = self.basic_blocks[*otherwise];
                self.bx.build(Inst::Switch { discr: v, default, cases: llcases });
                assert(self.bx.func@.blocks[c] =~= b0 + term_insts(body, *term, b0.len() as int));
            },
            Terminator::Return => {
                let ret = self.locals[0];
                if matches!(ret.ty(), Ty::Unit) {
                    self.bx.build(Inst::RetVoid);
                } else {
                    proof {
                        assert(crate::ty::is_mappable(body.local_ty(0)));
                    }
                    let v = ret.load_scalar(&mut self.bx);
                    let val = v.llval();
                    self.bx.build(Inst::Ret { val });
                }
                assert(self.bx.func@.blocks[c] =~= b0 + term_insts(body, *term, b0.len() as int));
            },
            Terminator::Other => {},
        }
        assert(self.bx.func@.blocks =~= old(self).bx.func@.blocks.update(
            c,
            b0 + term_insts(body, *term, b0.len() as int),
        ));
    }
    /// Establishes the storage of every local and creates every block: the
    /// header pass.
    pub fn codegen_header(&mut self)
        requires
            old(self).mir.wf(),
            supported(*old(self).mir),
            old(self).locals@.len() == 0,
            old(self).basic_blocks@.len() == 0,
            old(self).bx.func@.blocks.len() == 0,
            old(self).bx.func@.param_names.len() == 0,
        ensures
            final(self).ready(),
            final(self).mir == old(self).mir,
            final(self).bx.func@.name == old(self).bx.func@.name,
            final(self).bx.func@.ty == old(self).bx.func@.ty,
            final(self).bx.func@.param_names == old(self).mir.arg_names@.map_values(|s: String| s@),
            final(self).bx.func@.blocks[0] == entry_insts(*old(self).mir),
            forall|b: int|
                0 <= b < old(self).mir.basic_blocks@.len() ==> (#[trigger] final(self).bx.func@.blocks[b + 1]).len()
                    == 0,
    {
        let ghost body = *self.mir;
        let n = self.mir.local_decls.len();
        let mut l: usize = 0;
        while l < n
            invariant
                *self.mir == body,
                n == body.local_decls@.len(),
                l <= n,
                self.locals@.len() == l,
                forall|k: int| 0 <= k < l ==> #[trigger] self.locals@[k] == unbound_place(body, k),
                self.basic_blocks@.len() == 0,
                self.bx.func@.blocks.len() == 0,
                self.bx.func@.param_names.len() == 0,
                self.bx.func@.name == old(self).bx.func@.name,
                self.bx.func@.ty == old(self).bx.func@.ty,
            decreases n - l,
        {
            let ty = self.mir.local_decls[l];
            self.locals.push(TPlace { ty_and_layout: layout_of(ty), llval: StorageCell::new() });
            l = l + 1;
        }
        let mut idx: usize = 0;
        while idx < self.mir.arg_count
            invariant
                *self.mir == body,
                body.wf(),
                idx <= body.arg_count,
                self.locals@.len() == n,
                n == body.local_decls@.len(),
                forall|k: int|
                    0 <= k < n ==> #[trigger] self.locals@[k] == if 1 <= k <= idx {
                        local_place(body, k)
                    } else {
                        unbound_place(body, k)
                    },
                self.basic_blocks@.len() == 0,
                self.bx.func@.blocks.len() == 0,
                self.bx.func@.param_names == body.arg_names@.subrange(0, idx as int).map_values(|s: String| s@),
                self.bx.func@.name == old(self).bx.func@.name,
                self.bx.func@.ty == old(self).bx.func@.ty,
            decreases body.arg_count - idx,
        {
            let param_name = self.mir.arg_names[idx].clone();
            self.bx.name_param(param_name);
            let r = self.locals[idx + 1].llval.bind(Value::Param(idx));
            assert(r is Ok);
            idx = idx + 1;
            assert(self.bx.func@.param_names =~= body.arg_names@.subrange(0, idx as int).map_values(
                |s: String| s@,
            ));
        }
        assert(body.arg_names@.subrange(0, idx as int) =~= body.arg_names@);

        self.bx.append_block();
        let nb = self.mir.basic_blocks.len();
        let mut b: usize = 0;
        while b < nb
            invariant
                *self.mir == body,
                nb == body.basic_blocks@.len(),
                nb < usize::MAX,
                b <= nb,
                self.basic_blocks@.len() == b,
                forall|k: int| 0 <= k < b ==> #[trigger] self.basic_blocks@[k] == target_block(k),
                self.bx.func@.blocks =~= Seq::new((b + 1) as nat, |k: int| Seq::<InstV>::empty()),
                self.locals@.len() == body.local_decls@.len(),
                forall|k: int|
                    0 <= k < body.local_decls@.len() ==> #[trigger] self.locals@[k] == if body.is_arg(k) {
                        local_place(body, k)
                    } else {
                        unbound_place(body, k)
                    },
                self.bx.func@.param_names == body.arg_names@.map_values(|s: String| s@),
                self.bx.func@.name == old(self).bx.func@.name,
                self.bx.func@.ty == old(self).bx.func@.ty,
            decreases nb - b,
        {
            let block = self.bx.append_block();
            self.basic_blocks.push(block);
            b = b + 1;
        }
        self.codegen_header_allocas();
    }

    /// A stack slot for `local` in the block under the cursor, unless the
    /// local is zero-sized.
    fn alloca(&mut self, local: usize) -> (r: Option<Value>)
        requires
            old(self).bx.cursor < old(self).bx.func@.blocks.len(),
            local < old(self).locals@.len(),
            local < old(self).mir.local_decls@.len(),
            old(self).locals@[local as int].ty_and_layout == spec_layout_of(old(self).mir.local_ty(local as int)),
            !old(self).mir.local_ty(local as int).is_zst() ==> is_mappable(old(self).mir.local_ty(local as int)),
        ensures
            r == if old(self).mir.local_ty(local as int).is_zst() {
                None
            } else {
                Some(Value::Slot(local))
            },
            final(self).same_tables(*old(self)),
            final(self).bx.same_but_blocks(old(self).bx),
            final(self).bx.func@.blocks == old(self).bx.func@.blocks.update(
                old(self).bx.cursor as int,
                old(self).bx.func@.blocks[old(self).bx.cursor as int] + alloca_seq(*old(self).mir, local as int),
            ),
    {
        let place = self.locals[local];
        if place.ty_and_layout.is_zst() {
            assert(self.bx.func@.blocks =~= old(self).bx.func@.blocks.update(
                self.bx.cursor as int,
                old(self).bx.func@.blocks[self.bx.cursor as int] + alloca_seq(*self.mir, local as int),
            ));
            None
        } else {
            let ty = ty_to_llvm_type(place.ty_and_layout.ty);
            self.bx.build(Inst::Alloca { ty, local });
            assert(old(self).bx.func@.blocks[self.bx.cursor as int].push(InstV::Alloca { ty, local })
                =~= old(self).bx.func@.blocks[self.bx.cursor as int] + alloca_seq(*self.mir, local as int));
            Some(Value::Slot(local))
        }
    }

    /// Fills the entry block: a stack slot for the return slot and for every
    /// other local after the parameters, then a jump to the first block.
    fn codegen_header_allocas(&mut self)
        requires
            old(self).mir.wf(),
            supported(*old(self).mir),
            old(self).locals@.len() == old(self).mir.local_decls@.len(),
            forall|k: int|
                0 <= k < old(self).locals@.len() ==> #[trigger] old(self).locals@[k] == if old(self).mir.is_arg(k) {
                    local_place(*old(self).mir, k)
                } else {
                    unbound_place(*old(self).mir, k)
                },
            old(self).basic_blocks@.len() == old(self).mir.basic_blocks@.len(),
            forall|b: int| 0 <= b < old(self).basic_blocks@.len() ==> #[trigger] old(self).basic_blocks@[b] == target_block(b),
            old(self).bx.func@.blocks =~= Seq::new(
                (old(self).mir.basic_blocks@.len() + 1) as nat,
                |k: int| Seq::<InstV>::empty(),
            ),
        ensures
            final(self).ready(),
            final(self).mir == old(self).mir,
            final(self).bx.func@.name == old(self).bx.func@.name,
            final(self).bx.func@.ty == old(self).bx.func@.ty,
            final(self).bx.func@.param_names == old(self).bx.func@.param_names,
            final(self).bx.func@.blocks == old(self).bx.func@.blocks.update(0, entry_insts(*old(self).mir)),
    {
        let ghost body = *self.mir;
        let ghost blocks0 = self.bx.func@.blocks;
        self.bx.position_at_end(0);
        assert(supported(body) ==> (!body.local_ty(0).is_zst() ==> is_mappable(body.local_ty(0))));
        if let Some(slot) = self.alloca(0) {
            let r = self.locals[0].llval.bind(slot);
            assert(r is Ok);
        }
        let n = self.mir.local_decls.len();
        let mut l: usize = self.mir.arg_count + 1;
        while l < n
            invariant
                *self.mir == body,
                body.wf(),
                supported(body),
                n == body.local_decls@.len(),
                body.arg_count + 1 <= l <= n || (l == body.arg_count + 1 && n == l),
                self.locals@.len() == n,
                forall|k: int|
                    0 <= k < n ==> #[trigger] self.locals@[k] == if k == 0 || body.is_arg(k) || (
                    body.arg_count < k < l) {
                        local_place(body, k)
                    } else {
                        unbound_place(body, k)
                    },
                self.bx.cursor == 0,
                blocks0.len() == body.basic_blocks@.len() + 1,
                self.basic_blocks == old(self).basic_blocks,
                self.bx.func@.blocks == blocks0.update(
                    0,
                    alloca_seq(body, 0) + allocas_upto(body, l as int),
                ),
                self.bx.func@.name == old(self).bx.func@.name,
                self.bx.func@.ty == old(self).bx.func@.ty,
                self.bx.func@.param_names == old(self).bx.func@.param_names,
            decreases n - l,
        {
            assert(!body.is_arg(l as int));
            let ghost before = self.bx.func@.blocks;
            if let Some(slot) = self.alloca(l) {
                let r = self.locals[l].llval.bind(slot);
                assert(r is Ok);
            }
            l = l + 1;
            assert(alloca_seq(body, 0) + allocas_upto(body, l as int) =~= alloca_seq(body, 0) + allocas_upto(
                body,
                (l - 1) as int,
            ) + alloca_seq(body, (l - 1) as int));
        }
        let next = self.basic_blocks[0];
        self.bx.build(Inst::Br { target: next });
        assert(self.bx.func@.blocks[0] =~= entry_insts(body));
        assert(self.bx.func@.blocks =~= old(self).bx.func@.blocks.update(0, entry_insts(body)));
    }
    /// Lowers every block, in index order, into its target block: the body
    /// pass.
    pub fn codegen_body(&mut self)
        requires
            old(self).ready(),
            forall|b: int|
                0 <= b < old(self).mir.basic_blocks@.len() ==> (#[trigger] old(self).bx.func@.blocks[b + 1]).len() == 0,
        ensures
            final(self).ready(),
            final(self).same_tables(*old(self)),
            final(self).bx.func@.name == old(self).bx.func@.name,
            final(self).bx.func@.ty == old(self).bx.func@.ty,
            final(self).bx.func@.param_names == old(self).bx.func@.param_names,
            final(self).bx.func@.blocks[0] == old(self).bx.func@.blocks[0],
            forall|b: int|
                0 <= b < old(self).mir.basic_blocks@.len() ==> #[trigger] final(self).bx.func@.blocks[b + 1]
                    == block_insts(*old(self).mir, b),
    {
        let ghost body = *self.mir;
        let mir: &Body = self.mir;
        let nb = mir.basic_blocks.len();
        let mut i: usize = 0;
        while i < nb
            invariant
                self.ready(),
                self.same_tables(*old(self)),
                self.mir == mir,
                *mir == body,
                nb == body.basic_blocks@.len(),
                i <= nb,
                self.bx.func@.name == old(self).bx.func@.name,
                self.bx.func@.ty == old(self).bx.func@.ty,
                self.bx.func@.param_names == old(self).bx.func@.param_names,
                self.bx.func@.blocks[0] == old(self).bx.func@.blocks[0],
                forall|b: int| 0 <= b < i ==> #[trigger] self.bx.func@.blocks[b + 1] == block_insts(body, b),
                forall|b: int| i <= b < nb ==> (#[trigger] self.bx.func@.blocks[b + 1]).len() == 0,
            decreases nb - i,
        {
            let data = &mir.basic_blocks[i];
            let bb = self.basic_blocks[i];
            self.bx.position_at_end(bb);
            let ghost start = self.bx.func@.blocks;
            let ghost stmts = data.statements@;
            assert(start[i + 1].len() == 0);
            assert(start[i + 1] =~= Seq::<InstV>::empty());
            assert(stmts_insts(body, stmts, 0) =~= Seq::<InstV>::empty());
            assert(start.update(bb as int, stmts_insts(body, stmts, 0)) =~= start);
            let mut k: usize = 0;
            while k < data.statements.len()
                invariant
                    self.ready(),
                    self.same_tables(*old(self)),
                    self.mir == mir,
                    *mir == body,
                    nb == body.basic_blocks@.len(),
                    i < nb,
                    *data == body.basic_blocks@[i as int],
                    stmts == data.statements@,
                    k <= stmts.len(),
                    self.bx.cursor == bb,
                    bb == i + 1,
                    start.len() == nb + 1,
                    self.bx.func@.name == old(self).bx.func@.name,
                    self.bx.func@.ty == old(self).bx.func@.ty,
                    self.bx.func@.param_names == old(self).bx.func@.param_names,
                    self.bx.func@.blocks == start.update(bb as int, stmts_insts(body, stmts, k as nat)),
                decreases stmts.len() - k,
            {
                let ghost prev = stmts_insts(body, stmts, k as nat);
                self.codegen_statement(&data.statements[k]);
                k = k + 1;
                assert(self.bx.func@.blocks =~= start.update(bb as int, stmts_insts(body, stmts, k as nat)));
            }
            self.codegen_terminator(&data.terminator);
            assert(self.bx.func@.blocks[bb as int] =~= block_insts(body, i as int));
            i = i + 1;
        }
    }
}

/// Lowers `mir` into a function named `name` (the source function's full
/// path) and adds it to `module`.
pub fn codegen_fn(module: &mut Module, name: String, mir: &Body)
    requires
        mir.wf(),
        supported(*mir),
    ensures
        final(module)@.name == old(module)@.name,
        final(module)@.functions == old(module)@.functions.push(lowered_function(*mir, name@)),
{
    let ghost fname = name@;
    let fn_sig = mir.fn_sig();
    assert(forall|i: int| 0 <= i < fn_sig.inputs@.len() ==> #[trigger] fn_sig.inputs@[i] == mir.local_ty(i + 1));
    let llfn_sig = fn_sig_to_llvm_fn_type(&fn_sig);
    let llfn = LlFunction::new(name, llfn_sig);
    let mut fx = FunctionCx::new(llfn, mir);
    fx.codegen_header();
    fx.codegen_body();
    let llfn = fx.bx.func;
    assert forall|j: int| 1 <= j < llfn@.blocks.len() implies llfn@.blocks[j] == lowered_blocks(*mir)[j] by {
        assert(llfn@.blocks[(j - 1) + 1] == block_insts(*mir, j - 1));
    }
    assert(llfn@.blocks =~= lowered_blocks(*mir));
    assert(llfn@.ty.params =~= body_fn_type(*mir).params);
    assert(llfn@ == lowered_function(*mir, fname));
    module.functions.push(llfn);
    assert(module@.functions =~= old(module)@.functions.push(lowered_function(*mir, fname)));
}

} // verus!
