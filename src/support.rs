//! Executable tests of the conditions under which a body can be lowered.
use vstd::prelude::*;

use crate::lowering::{binop_supported, operand_supported, operand_ty, stmt_supported, supported, term_supported};
use crate::mir::{BasicBlockData, BinOp, Body, Operand, Rvalue, Statement, Terminator, Ty};
use crate::ty::{is_mappable, is_mappable_ty};

verus! {

fn operand_in(op: Operand, n: usize) -> (r: bool)
    ensures
        r == op.local_in(n as nat),
{
    match op {
        Operand::Copy(l) | Operand::Move(l) => l < n,
        Operand::Constant(_) => true,
    }
}

fn operand_type(body: &Body, op: Operand) -> (r: Ty)
    requires
        op.local_in(body.local_decls@.len()),
    ensures
        r == operand_ty(*body, op),
{
    match op {
        Operand::Copy(l) | Operand::Move(l) => body.local_decls[l],
        Operand::Constant(c) => c.ty,
    }
}

fn is_int_like(ty: Ty) -> (r: bool)
    ensures
        r == ty.is_int_like(),
{
    matches!(ty, Ty::Bool | Ty::Char | Ty::Int(_) | Ty::Uint(_))
}

fn operand_ok(op: Operand) -> (r: bool)
    ensures
        r == operand_supported(op),
{
    match op {
        Operand::Constant(c) => is_int_like(c.ty) && c.ty.int_width() != 128,
        _ => true,
    }
}

/// Whether a statement refers to locals below `n` only and has a shape the
/// lowering handles.
fn statement_ok(body: &Body, s: Statement) -> (r: bool)
    ensures
        r == (s.locals_in(body.local_decls@.len()) && stmt_supported(*body, s)),
{
    let n = body.local_decls.len();
    match s {
        Statement::Assign { place, rvalue } => {
            if place >= n {
                return false;
            }
            match rvalue {
                Rvalue::Use(op) => operand_in(op, n) && operand_ok(op),
                Rvalue::BinaryOp(bin_op, a, b) => {
                    if !(operand_in(a, n) && operand_in(b, n)) {
                        return false;
                    }
                    let op_ok = matches!(bin_op, BinOp::Add | BinOp::Sub | BinOp::Eq | BinOp::Lt | BinOp::Le);
                    assert(op_ok == binop_supported(bin_op));
                    op_ok && operand_ok(a) && operand_ok(b) && operand_type(body, a).is_integral()
                        && operand_type(body, b).is_integral()
                },
                Rvalue::Other => false,
            }
        },
        Statement::Other => false,
    }
}

/// Whether a terminator refers to locals and blocks in range only and has a
/// shape the lowering handles.
fn terminator_ok(body: &Body, t: &Terminator) -> (r: bool)
    ensures
        r == (t.refs_in(body.local_decls@.len(), body.basic_blocks@.len()) && term_supported(*body, *t)),
{
    let nl = body.local_decls.len();
    let nb = body.basic_blocks.len();
    match t {
        Terminator::Goto { target } => *target < nb,
        Terminator::SwitchInt { discr, cases, otherwise } => {
            if !(operand_in(*discr, nl) && *otherwise < nb) {
                return false;
            }
            assert(t.refs_in(nl as nat, nb as nat) <==> forall|j: int|
                0 <= j < cases@.len() ==> #[trigger] cases@[j].target < nb);
            let mut i: usize = 0;
            while i < cases.len()
                invariant
                    nb == body.basic_blocks@.len(),
                    nl == body.local_decls@.len(),
                    t.refs_in(nl as nat, nb as nat) <==> forall|j: int|
                        0 <= j < cases@.len() ==> #[trigger] cases@[j].target < nb,
                    i <= cases@.len(),
                    forall|j: int| 0 <= j < i ==> #[trigger] cases@[j].target < nb,
                decreases cases@.len() - i,
            {
                if cases[i].target >= nb {
                    assert(!(cases@[i as int].target < nb));
                    return false;
                }
                i = i + 1;
            }
            operand_ok(*discr) && is_int_like(operand_type(body, *discr))
        },
        Terminator::Return => true,
        Terminator::Other => false,
    }
}

fn block_ok(body: &Body, data: &BasicBlockData) -> (r: bool)
    ensures
        r == ((forall|s: int|
            0 <= s < data.statements@.len() ==> (#[trigger] data.statements@[s]).locals_in(body.local_decls@.len())
                && stmt_supported(*body, data.statements@[s])) && data.terminator.refs_in(
            body.local_decls@.len(),
            body.basic_blocks@.len(),
        ) && term_supported(*body, data.terminator)),
{
    let mut k: usize = 0;
    while k < data.statements.len()
        invariant
            k <= data.statements@.len(),
            forall|s: int|
                0 <= s < k ==> (#[trigger] data.statements@[s]).locals_in(body.local_decls@.len())
                    && stmt_supported(*body, data.statements@[s]),
        decreases data.statements@.len() - k,
    {
        if !statement_ok(body, data.statements[k]) {
            return false;
        }
        k = k + 1;
    }
    terminator_ok(body, &data.terminator)
}

/// Whether `body` is well formed and every construct in it is one the
/// lowering handles: exactly the condition under which `codegen_fn` may be
/// called on it.
pub fn lowerable(body: &Body) -> (r: bool)
    ensures
        r == (body.wf() && supported(*body)),
{
    let nl = body.local_decls.len();
    let nb = body.basic_blocks.len();
    if !(nl >= 1 && body.arg_count < nl && body.arg_names.len() == body.arg_count && nb >= 1 && nb < usize::MAX) {
        return false;
    }
    let mut l: usize = 0;
    while l < nl
        invariant
            nl == body.local_decls@.len(),
            body.arg_count < nl,
            l <= nl,
            forall|k: int| 0 <= k < l && k <= body.arg_count ==> is_mappable(#[trigger] body.local_ty(k)),
            forall|k: int|
                0 <= k < l && !body.is_arg(k) && !body.local_ty(k).is_zst() ==> is_mappable(#[trigger] body.local_ty(k)),
        decreases nl - l,
    {
        let ty = body.local_decls[l];
        let needs_map = l <= body.arg_count || ty.size() != 0;
        if needs_map && !is_mappable_ty(ty) {
            assert(!is_mappable(body.local_ty(l as int)));
            return false;
        }
        l = l + 1;
    }
    let mut b: usize = 0;
    while b < nb
        invariant
            nb == body.basic_blocks@.len(),
            b <= nb,
            forall|j: int, s: int|
                0 <= j < b && 0 <= s < body.basic_blocks@[j].statements@.len() ==> (
                #[trigger] body.basic_blocks@[j].statements@[s]).locals_in(body.local_decls@.len())
                    && stmt_supported(*body, body.basic_blocks@[j].statements@[s]),
            forall|j: int|
                0 <= j < b ==> (#[trigger] body.basic_blocks@[j]).terminator.refs_in(
                    body.local_decls@.len(),
                    nb as nat,
                ) && term_supported(*body, body.basic_blocks@[j].terminator),
        decreases nb - b,
    {
        if !block_ok(body, &body.basic_blocks[b]) {
            assert(!(body.wf() && supported(*body))) by {
                let data = body.basic_blocks@[b as int];
                if body.wf() && supported(*body) {
                    assert forall|s: int| 0 <= s < data.statements@.len() implies (
                    #[trigger] data.statements@[s]).locals_in(body.local_decls@.len()) && stmt_supported(
                        *body,
                        data.statements@[s],
                    ) by {
                        assert(body.basic_blocks@[b as int].statements@[s] == data.statements@[s]);
                    }
                }
            }
            return false;
        }
        b = b + 1;
    }
    true
}

} // verus!
