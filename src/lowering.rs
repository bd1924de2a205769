//! What the lowering of a body produces, stated block by block, and the
//! laws that follow from it.
use vstd::arithmetic::power2::pow2;
use vstd::prelude::*;

use crate::llir::{Case, FnTypeV, Imm, InstV, IntPredicate, LlFunctionV, Value};
use crate::mir::{spec_layout_of, BinOp, Body, Constant, Operand, Rvalue, Statement, SwitchCase, Terminator, Ty};
use crate::place::{after_load, load_seq, store_seq, StorageCell, TPlace};
use crate::ty::{is_mappable, llvm_type};

verus! {

/// `bits` reduced to its low `width` bits.
pub open spec fn truncate(bits: u128, width: u32) -> u128 {
    if width >= 128 {
        bits
    } else {
        (bits as int % pow2(width as nat) as int) as u128
    }
}

/// The immediate a constant materializes as: its bit pattern at the width of
/// its type.
pub open spec fn materialize(c: Constant) -> Imm {
    Imm { width: c.ty.spec_int_width(), bits: truncate(c.bits, c.ty.spec_int_width()) }
}

/// The target block that stands for source block `b`; block 0 is the entry.
pub open spec fn target_block(b: int) -> usize {
    (b + 1) as usize
}

/// What a local's storage descriptor holds once the header pass is done:
/// the incoming parameter for a parameter, a stack slot for any other local
/// that is not zero-sized, nothing otherwise.
pub open spec fn local_storage(body: Body, l: int) -> Option<Value> {
    if body.is_arg(l) {
        Some(Value::Param((l - 1) as usize))
    } else if body.local_ty(l).is_zst() {
        None
    } else {
        Some(Value::Slot(l as usize))
    }
}

pub open spec fn cell_of(v: Option<Value>) -> StorageCell {
    match v {
        Some(x) => StorageCell::Bound(x),
        None => StorageCell::Unbound,
    }
}

/// The place of local `l` once the header pass is done.
pub open spec fn local_place(body: Body, l: int) -> TPlace {
    TPlace { ty_and_layout: spec_layout_of(body.local_ty(l)), llval: cell_of(local_storage(body, l)) }
}

pub open spec fn operand_ty(body: Body, op: Operand) -> Ty {
    match op {
        Operand::Copy(l) => body.local_ty(l as int),
        Operand::Move(l) => body.local_ty(l as int),
        Operand::Constant(c) => c.ty,
    }
}

/// The value an operand reads: a zero-sized local reads as nothing.
pub open spec fn operand_value(body: Body, op: Operand) -> Option<Value> {
    match op {
        Operand::Copy(l) => if body.local_ty(l as int).is_zst() {
            None
        } else {
            local_storage(body, l as int)
        },
        Operand::Move(l) => if body.local_ty(l as int).is_zst() {
            None
        } else {
            local_storage(body, l as int)
        },
        Operand::Constant(c) => Some(Value::Imm(materialize(c))),
    }
}

pub open spec fn dest_target(body: Body, l: int) -> Option<Value> {
    local_place(body, l).store_target()
}

/// The instruction for a binary operation on two register values.
pub open spec fn binop_inst(op: BinOp, ty: Ty, lhs: Value, rhs: Value) -> InstV {
    match op {
        BinOp::Add => InstV::Add { lhs, rhs },
        BinOp::Sub => InstV::Sub { lhs, rhs },
        BinOp::Eq => InstV::ICmp { pred: IntPredicate::Eq, lhs, rhs },
        BinOp::Lt => InstV::ICmp {
            pred: if ty.spec_is_signed() { IntPredicate::Slt } else { IntPredicate::Ult },
            lhs,
            rhs,
        },
        BinOp::Le => InstV::ICmp {
            pred: if ty.spec_is_signed() { IntPredicate::Sle } else { IntPredicate::Ule },
            lhs,
            rhs,
        },
        _ => InstV::RetVoid,
    }
}

/// The instructions for one statement whose first instruction sits at `n`.
pub open spec fn stmt_insts(body: Body, s: Statement, n: int) -> Seq<InstV> {
    match s {
        Statement::Assign { place, rvalue: Rvalue::Use(op) } => {
            let v = operand_value(body, op);
            load_seq(v, operand_ty(body, op)) + store_seq(after_load(v, n), dest_target(body, place as int))
        },
        Statement::Assign { place, rvalue: Rvalue::BinaryOp(op, a, b) } => {
            let va = operand_value(body, a);
            let vb = operand_value(body, b);
            let la = load_seq(va, operand_ty(body, a));
            let lb = load_seq(vb, operand_ty(body, b));
            let at = n + la.len() + lb.len();
            la + lb + seq![
                binop_inst(
                    op,
                    operand_ty(body, a),
                    after_load(va, n)->0,
                    after_load(vb, n + la.len())->0,
                ),
            ] + store_seq(Some(Value::Inst(at as usize)), dest_target(body, place as int))
        },
        _ => Seq::empty(),
    }
}

pub open spec fn switch_case(c: SwitchCase, width: u32) -> Case {
    Case { value: Imm { width, bits: truncate(c.value, width) }, target: target_block(c.target as int) }
}

/// The instructions for a terminator whose first instruction sits at `n`.
pub open spec fn term_insts(body: Body, t: Terminator, n: int) -> Seq<InstV> {
    match t {
        Terminator::Goto { target } => seq![InstV::Br { target: target_block(target as int) }],
        Terminator::SwitchInt { discr, cases, otherwise } => {
            let v = operand_value(body, discr);
            let w = operand_ty(body, discr).spec_int_width();
            load_seq(v, operand_ty(body, discr)) + seq![
                InstV::Switch {
                    discr: after_load(v, n)->0,
                    default: target_block(otherwise as int),
                    cases: cases@.map_values(|c: SwitchCase| switch_case(c, w)),
                },
            ]
        },
        Terminator::Return => if body.local_ty(0).is_unit() {
            seq![InstV::RetVoid]
        } else {
            let v = local_storage(body, 0);
            load_seq(v, body.local_ty(0)) + seq![InstV::Ret { val: after_load(v, n)->0 }]
        },
        Terminator::Other => Seq::empty(),
    }
}

/// The instructions for the first `k` statements of `stmts`.
pub open spec fn stmts_insts(body: Body, stmts: Seq<Statement>, k: nat) -> Seq<InstV>
    decreases k,
{
    if k == 0 || k > stmts.len() {
        Seq::empty()
    } else {
        let prev = stmts_insts(body, stmts, (k - 1) as nat);
        prev + stmt_insts(body, stmts[k - 1], prev.len() as int)
    }
}

/// The instructions of the target block for source block `b`.
pub open spec fn block_insts(body: Body, b: int) -> Seq<InstV> {
    let data = body.basic_blocks@[b];
    let s = stmts_insts(body, data.statements@, data.statements@.len());
    s + term_insts(body, data.terminator, s.len() as int)
}

/// A stack slot for local `l`, unless it is zero-sized.
pub open spec fn alloca_seq(body: Body, l: int) -> Seq<InstV> {
    if body.local_ty(l).is_zst() {
        Seq::empty()
    } else {
        seq![InstV::Alloca { ty: llvm_type(body.local_ty(l)), local: l as usize }]
    }
}

/// The stack slots of the locals after the parameters and below `k`.
pub open spec fn allocas_upto(body: Body, k: int) -> Seq<InstV>
    decreases k,
{
    if k <= body.arg_count + 1 {
        Seq::empty()
    } else {
        allocas_upto(body, k - 1) + alloca_seq(body, k - 1)
    }
}

/// The entry block: the return slot, the other non-parameter slots in
/// declaration order, then a jump to the first real block.
pub open spec fn entry_insts(body: Body) -> Seq<InstV> {
    alloca_seq(body, 0) + allocas_upto(body, body.local_decls@.len() as int) + seq![
        InstV::Br { target: target_block(0) },
    ]
}

pub open spec fn lowered_blocks(body: Body) -> Seq<Seq<InstV>> {
    seq![entry_insts(body)] + Seq::new(body.basic_blocks@.len(), |b: int| block_insts(body, b))
}

pub open spec fn body_fn_type(body: Body) -> FnTypeV {
    FnTypeV {
        params: Seq::new(body.arg_count as nat, |i: int| llvm_type(body.local_ty(i + 1))),
        ret: llvm_type(body.local_ty(0)),
    }
}

/// The whole lowered function.
pub open spec fn lowered_function(body: Body, name: Seq<char>) -> LlFunctionV {
    LlFunctionV {
        name,
        ty: body_fn_type(body),
        param_names: body.arg_names@.map_values(|s: String| s@),
        blocks: lowered_blocks(body),
    }
}

// ---- What the lowering handles ----

pub open spec fn operand_supported(op: Operand) -> bool {
    match op {
        Operand::Constant(c) => c.ty.is_int_like() && c.ty.spec_int_width() != 128,
        _ => true,
    }
}

pub open spec fn binop_supported(op: BinOp) -> bool {
    op is Add || op is Sub || op is Eq || op is Lt || op is Le
}

pub open spec fn stmt_supported(body: Body, s: Statement) -> bool {
    match s {
        Statement::Assign { place: _, rvalue: Rvalue::Use(op) } => operand_supported(op),
        Statement::Assign { place: _, rvalue: Rvalue::BinaryOp(op, a, b) } => {
            &&& binop_supported(op)
            &&& operand_supported(a)
            &&& operand_supported(b)
            &&& operand_ty(body, a).spec_is_integral()
            &&& operand_ty(body, b).spec_is_integral()
        },
        _ => false,
    }
}

pub open spec fn term_supported(body: Body, t: Terminator) -> bool {
    match t {
        Terminator::Goto { .. } => true,
        Terminator::SwitchInt { discr, .. } => operand_supported(discr) && operand_ty(body, discr).is_int_like(),
        Terminator::Return => true,
        Terminator::Other => false,
    }
}

/// Every construct of the body is one the lowering handles: the signature's
/// types and the types of the locals that get a stack slot map, and every
/// statement and terminator has a supported shape.
pub open spec fn supported(body: Body) -> bool {
    &&& forall|l: int| 0 <= l <= body.arg_count ==> is_mappable(#[trigger] body.local_ty(l))
    &&& forall|l: int|
        0 <= l < body.local_decls@.len() && !body.is_arg(l) && !body.local_ty(l).is_zst()
            ==> is_mappable(#[trigger] body.local_ty(l))
    &&& forall|b: int, s: int|
        0 <= b < body.basic_blocks@.len() && 0 <= s < body.basic_blocks@[b].statements@.len()
            ==> stmt_supported(body, #[trigger] body.basic_blocks@[b].statements@[s])
    &&& forall|b: int|
        0 <= b < body.basic_blocks@.len() ==> term_supported(body, #[trigger] body.basic_blocks@[b].terminator)
}

} // verus!
