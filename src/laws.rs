//! Properties of every lowering, proved from the block-by-block statement in
//! `lowering`.
use vstd::prelude::*;

use crate::llir::{Case, InstV, IntPredicate, Value};
use crate::lowering::{
    alloca_seq, allocas_upto, binop_inst, block_insts, dest_target, entry_insts, local_storage, lowered_function,
    operand_ty, operand_value, stmt_insts, stmts_insts, switch_case, target_block, term_insts, truncate,
};
use crate::mir::{BinOp, Body, Operand, Rvalue, Statement, SwitchCase, Terminator};
use crate::place::{after_load, load_seq, store_seq, StorageCell};

verus! {

/// The instruction allocates, loads from or stores to the stack slot of
/// local `l`.
pub open spec fn touches_slot(i: InstV, l: usize) -> bool {
    match i {
        InstV::Alloca { local, .. } => local == l,
        InstV::Load { ptr, .. } => ptr == Value::Slot(l),
        InstV::Store { ptr, .. } => ptr == Value::Slot(l),
        _ => false,
    }
}

pub open spec fn untouched(s: Seq<InstV>, l: usize) -> bool {
    forall|i: int| 0 <= i < s.len() ==> !touches_slot(#[trigger] s[i], l)
}

pub open spec fn predicate_of(i: InstV) -> IntPredicate {
    match i {
        InstV::ICmp { pred, .. } => pred,
        _ => IntPredicate::Eq,
    }
}

pub open spec fn dispatch_default(i: InstV) -> usize {
    match i {
        InstV::Switch { default, .. } => default,
        _ => 0,
    }
}

pub open spec fn dispatch_cases(i: InstV) -> Seq<Case> {
    match i {
        InstV::Switch { cases, .. } => cases,
        _ => Seq::empty(),
    }
}

proof fn lemma_untouched_concat(a: Seq<InstV>, b: Seq<InstV>, l: usize)
    requires
        untouched(a, l),
        untouched(b, l),
    ensures
        untouched(a + b, l),
{
    assert forall|i: int| 0 <= i < (a + b).len() implies !touches_slot(#[trigger] (a + b)[i], l) by {
        if i < a.len() {
            assert((a + b)[i] == a[i]);
        } else {
            assert((a + b)[i] == b[i - a.len()]);
        }
    }
}

/// A value that names the slot of a zero-sized local is never produced.
proof fn lemma_no_zst_slot(body: Body, v: Option<Value>, l: usize)
    requires
        body.local_ty(l as int).is_zst(),
        v is Some && v->0 is Slot ==> !body.local_ty(v->0->Slot_0 as int).is_zst(),
    ensures
        forall|x: Option<Value>| untouched(#[trigger] store_seq(x, v), l),
        v != Some(Value::Slot(l)),
{
    assert forall|x: Option<Value>| untouched(#[trigger] store_seq(x, v), l) by {
        assert(v != Some(Value::Slot(l)));
    }
}

proof fn lemma_operand_sized(body: Body, op: Operand)
    ensures
        ({
            let v = operand_value(body, op);
            v is Some && v->0 is Slot ==> !body.local_ty(v->0->Slot_0 as int).is_zst()
        }),
{
}

proof fn lemma_load_untouched(body: Body, op: Operand, l: usize)
    requires
        body.local_ty(l as int).is_zst(),
    ensures
        untouched(load_seq(operand_value(body, op), operand_ty(body, op)), l),
{
    lemma_operand_sized(body, op);
}

proof fn lemma_stmt_untouched(body: Body, s: Statement, n: int, l: usize)
    requires
        body.local_ty(l as int).is_zst(),
    ensures
        untouched(stmt_insts(body, s, n), l),
{
    match s {
        Statement::Assign { place, rvalue } => {
            let dest = dest_target(body, place as int);
            assert(dest is Some && dest->0 is Slot ==> !body.local_ty(dest->0->Slot_0 as int).is_zst());
            lemma_no_zst_slot(body, dest, l);
            match rvalue {
                Rvalue::Use(op) => {
                    lemma_load_untouched(body, op, l);
                    let v = operand_value(body, op);
                    assert(untouched(store_seq(after_load(v, n), dest), l));
                    lemma_untouched_concat(
                        load_seq(v, operand_ty(body, op)),
                        store_seq(after_load(v, n), dest),
                        l,
                    );
                },
                Rvalue::BinaryOp(op, a, b) => {
                    lemma_load_untouched(body, a, l);
                    lemma_load_untouched(body, b, l);
                    let la = load_seq(operand_value(body, a), operand_ty(body, a));
                    let lb = load_seq(operand_value(body, b), operand_ty(body, b));
                    let at = n + la.len() + lb.len();
                    let mid = seq![
                        binop_inst(
                            op,
                            operand_ty(body, a),
                            after_load(operand_value(body, a), n)->0,
                            after_load(operand_value(body, b), n + la.len())->0,
                        ),
                    ];
                    assert(untouched(mid, l));
                    assert(untouched(store_seq(Some(Value::Inst(at as usize)), dest), l));
                    lemma_untouched_concat(la, lb, l);
                    lemma_untouched_concat(la + lb, mid, l);
                    lemma_untouched_concat(la + lb + mid, store_seq(Some(Value::Inst(at as usize)), dest), l);
                },
                Rvalue::Other => {},
            }
        },
        Statement::Other => {},
    }
}

proof fn lemma_stmts_untouched(body: Body, stmts: Seq<Statement>, k: nat, l: usize)
    requires
        body.local_ty(l as int).is_zst(),
    ensures
        untouched(stmts_insts(body, stmts, k), l),
    decreases k,
{
    if k == 0 || k > stmts.len() {
    } else {
        let prev = stmts_insts(body, stmts, (k - 1) as nat);
        lemma_stmts_untouched(body, stmts, (k - 1) as nat, l);
        lemma_stmt_untouched(body, stmts[k - 1], prev.len() as int, l);
        lemma_untouched_concat(prev, stmt_insts(body, stmts[k - 1], prev.len() as int), l);
    }
}

proof fn lemma_term_untouched(body: Body, t: Terminator, n: int, l: usize)
    requires
        body.local_ty(l as int).is_zst(),
    ensures
        untouched(term_insts(body, t, n), l),
{
    match t {
        Terminator::SwitchInt { discr, cases, otherwise } => {
            lemma_load_untouched(body, discr, l);
            let v = operand_value(body, discr);
            let w = operand_ty(body, discr).spec_int_width();
            let last = seq![
                InstV::Switch {
                    discr: after_load(v, n)->0,
                    default: target_block(otherwise as int),
                    cases: cases@.map_values(|c: SwitchCase| switch_case(c, w)),
                },
            ];
            assert(untouched(last, l));
            lemma_untouched_concat(load_seq(v, operand_ty(body, discr)), last, l);
        },
        Terminator::Return => {
            if !body.local_ty(0).is_unit() {
                let v = local_storage(body, 0);
                lemma_no_zst_slot(body, v, l);
                let last = seq![InstV::Ret { val: after_load(v, n)->0 }];
                assert(untouched(last, l));
                assert(untouched(load_seq(v, body.local_ty(0)), l));
                lemma_untouched_concat(load_seq(v, body.local_ty(0)), last, l);
            }
        },
        _ => {},
    }
}

proof fn lemma_allocas_untouched(body: Body, k: int, l: usize)
    requires
        body.local_ty(l as int).is_zst(),
        k <= body.local_decls@.len(),
        k <= usize::MAX,
    ensures
        untouched(allocas_upto(body, k), l),
    decreases k,
{
    if k > body.arg_count + 1 {
        lemma_allocas_untouched(body, k - 1, l);
        if !body.local_ty(k - 1).is_zst() {
            assert((k - 1) as usize != l);
        }
        assert(untouched(alloca_seq(body, k - 1), l));
        lemma_untouched_concat(allocas_upto(body, k - 1), alloca_seq(body, k - 1), l);
    }
}

/// Block correspondence: the lowered function has the entry block plus one
/// block per source block, and target block `b + 1` holds the lowering of
/// source block `b`.
pub proof fn lemma_block_correspondence(body: Body, name: Seq<char>)
    requires
        body.wf(),
    ensures
        lowered_function(body, name).blocks.len() == body.basic_blocks@.len() + 1,
        lowered_function(body, name).blocks[0] == entry_insts(body),
        forall|b: int|
            0 <= b < body.basic_blocks@.len() ==> lowered_function(body, name).blocks[target_block(b) as int]
                == #[trigger] block_insts(body, b),
{
    let f = lowered_function(body, name);
    assert forall|b: int| 0 <= b < body.basic_blocks@.len() implies f.blocks[target_block(b) as int]
        == #[trigger] block_insts(body, b) by {
        assert(target_block(b) as int == b + 1);
    }
}

/// Zero-size no-storage: no instruction of the lowered function allocates,
/// loads from or stores to a stack slot of a zero-sized local.
pub proof fn lemma_zst_no_storage(body: Body, name: Seq<char>, l: usize)
    requires
        body.wf(),
        l < body.local_decls@.len(),
        body.local_ty(l as int).is_zst(),
    ensures
        forall|b: int|
            0 <= b < lowered_function(body, name).blocks.len() ==> untouched(
                #[trigger] lowered_function(body, name).blocks[b],
                l,
            ),
{
    let f = lowered_function(body, name);
    assert forall|b: int| 0 <= b < f.blocks.len() implies untouched(#[trigger] f.blocks[b], l) by {
        if b == 0 {
            assert(untouched(alloca_seq(body, 0), l));
            assert(body.local_decls.len() == body.local_decls@.len());
            lemma_allocas_untouched(body, body.local_decls@.len() as int, l);
            let jump = seq![InstV::Br { target: target_block(0) }];
            assert(untouched(jump, l));
            lemma_untouched_concat(alloca_seq(body, 0), allocas_upto(body, body.local_decls@.len() as int), l);
            lemma_untouched_concat(
                alloca_seq(body, 0) + allocas_upto(body, body.local_decls@.len() as int),
                jump,
                l,
            );
        } else {
            let data = body.basic_blocks@[b - 1];
            let s = stmts_insts(body, data.statements@, data.statements@.len());
            lemma_stmts_untouched(body, data.statements@, data.statements@.len(), l);
            lemma_term_untouched(body, data.terminator, s.len() as int, l);
            lemma_untouched_concat(s, term_insts(body, data.terminator, s.len() as int), l);
            assert(f.blocks[b] == block_insts(body, b - 1));
        }
    }
}

/// Write-once: a cell that accepted a bind holds that value, and every
/// later bind is rejected and leaves it as it is.
pub proof fn lemma_write_once(c: StorageCell, v: Value, w: Value)
    requires
        c.accepts_bind(),
    ensures
        c.after_bind(v) == StorageCell::Bound(v),
        !c.after_bind(v).accepts_bind(),
        c.after_bind(v).after_bind(w) == c.after_bind(v),
{
}

/// Dispatch completeness: a block ending in a switch over `k` cases ends in
/// one dispatch with exactly `k` cases, in order, each to the block of its
/// source target and at the discriminant's width, and a default that is the
/// block of the declared otherwise target.
pub proof fn lemma_dispatch_complete(body: Body, b: int, discr: Operand, cases: Vec<SwitchCase>, otherwise: usize)
    requires
        0 <= b < body.basic_blocks@.len(),
        body.basic_blocks@[b].terminator == (Terminator::SwitchInt { discr, cases, otherwise }),
    ensures
        block_insts(body, b).last() is Switch,
        dispatch_default(block_insts(body, b).last()) == target_block(otherwise as int),
        dispatch_cases(block_insts(body, b).last()).len() == cases@.len(),
        forall|j: int|
            0 <= j < cases@.len() ==> (#[trigger] dispatch_cases(block_insts(body, b).last())[j]).target
                == target_block(cases@[j].target as int),
        forall|j: int|
            0 <= j < cases@.len() ==> (#[trigger] dispatch_cases(block_insts(body, b).last())[j]).value.bits
                == truncate(cases@[j].value, operand_ty(body, discr).spec_int_width()),
{
    let data = body.basic_blocks@[b];
    let s = stmts_insts(body, data.statements@, data.statements@.len());
    let t = term_insts(body, data.terminator, s.len() as int);
    assert(block_insts(body, b).last() == t.last());
}

/// Signedness fidelity: a less-than or less-or-equal comparison is lowered
/// to a compare whose signed or unsigned variant follows the signedness of
/// the operand type, and it is the only compare emitted for the statement.
pub proof fn lemma_signedness(body: Body, place: usize, op: BinOp, a: Operand, b: Operand, n: int)
    requires
        op is Lt || op is Le,
        operand_ty(body, a).spec_is_integral(),
        operand_ty(body, b).spec_is_integral(),
    ensures
        ({
            let insts = stmt_insts(body, Statement::Assign { place, rvalue: Rvalue::BinaryOp(op, a, b) }, n);
            let expected = if operand_ty(body, a).spec_is_signed() {
                if op is Lt {
                    IntPredicate::Slt
                } else {
                    IntPredicate::Sle
                }
            } else {
                if op is Lt {
                    IntPredicate::Ult
                } else {
                    IntPredicate::Ule
                }
            };
            &&& exists|i: int| 0 <= i < insts.len() && #[trigger] insts[i] is ICmp
            &&& forall|i: int|
                0 <= i < insts.len() && #[trigger] insts[i] is ICmp ==> predicate_of(insts[i]) == expected
        }),
{
    let s = Statement::Assign { place, rvalue: Rvalue::BinaryOp(op, a, b) };
    let insts = stmt_insts(body, s, n);
    let va = operand_value(body, a);
    let vb = operand_value(body, b);
    let la = load_seq(va, operand_ty(body, a));
    let lb = load_seq(vb, operand_ty(body, b));
    let at = n + la.len() + lb.len();
    let mid = seq![
        binop_inst(op, operand_ty(body, a), after_load(va, n)->0, after_load(vb, n + la.len())->0),
    ];
    let st = store_seq(Some(Value::Inst(at as usize)), dest_target(body, place as int));
    assert(insts == la + lb + mid + st);
    let k: int = la.len() + lb.len() as int;
    assert(insts[k] == mid[0]);
    assert(insts[k] is ICmp);
    assert forall|i: int| 0 <= i < insts.len() && #[trigger] insts[i] is ICmp implies i == k by {
        if i < la.len() {
            assert(insts[i] == la[i]);
        } else if i < k {
            assert(insts[i] == lb[i - la.len()]);
        } else if i > k {
            assert(insts[i] == st[i - k - 1]);
        }
    }
}

/// Zero-sized return: when the return slot has the empty-tuple type, every
/// return is value-less and no instruction touches the return slot's
/// storage.
pub proof fn lemma_unit_return(body: Body, name: Seq<char>, b: int)
    requires
        body.wf(),
        body.local_ty(0).is_unit(),
        0 <= b < body.basic_blocks@.len(),
        body.basic_blocks@[b].terminator is Return,
    ensures
        block_insts(body, b).last() == InstV::RetVoid,
        forall|k: int|
            0 <= k < lowered_function(body, name).blocks.len() ==> untouched(
                #[trigger] lowered_function(body, name).blocks[k],
                0,
            ),
{
    lemma_zst_no_storage(body, name, 0);
    let data = body.basic_blocks@[b];
    let s = stmts_insts(body, data.statements@, data.statements@.len());
    assert(block_insts(body, b).last() == term_insts(body, data.terminator, s.len() as int).last());
}

} // verus!
