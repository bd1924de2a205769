//! Mapping of source types to target types.
use vstd::prelude::*;

use crate::llir::{FnType, FnTypeV, LlType};
use crate::mir::{FloatTy, FnSig, Ty};

verus! {

/// The types the mapper covers: booleans, characters, fixed-width integers,
/// floats and the empty tuple.
pub open spec fn is_mappable(ty: Ty) -> bool {
    !(ty is Opaque)
}

pub open spec fn llvm_type(ty: Ty) -> LlType {
    match ty {
        Ty::Bool => LlType::Int(1),
        Ty::Char => LlType::Int(32),
        Ty::Int(i) => LlType::Int(i.spec_bits()),
        Ty::Uint(u) => LlType::Int(u.spec_bits()),
        Ty::Float(FloatTy::F32) => LlType::Float,
        Ty::Float(FloatTy::F64) => LlType::Double,
        Ty::Unit => LlType::Void,
        Ty::Opaque { .. } => LlType::Void,
    }
}

pub open spec fn llvm_fn_type(sig: FnSig) -> FnTypeV {
    FnTypeV { params: sig.inputs@.map_values(|t: Ty| llvm_type(t)), ret: llvm_type(sig.output) }
}

pub fn is_mappable_ty(ty: Ty) -> (r: bool)
    ensures
        r == is_mappable(ty),
{
    !matches!(ty, Ty::Opaque { .. })
}

pub fn ty_to_llvm_type(ty: Ty) -> (r: LlType)
    requires
        is_mappable(ty),
    ensures
        r == llvm_type(ty),
{
    match ty {
        Ty::Bool => LlType::Int(1),
        Ty::Char => LlType::Int(32),
        Ty::Int(i) => LlType::Int(i.bits()),
        Ty::Uint(u) => LlType::Int(u.bits()),
        Ty::Float(FloatTy::F32) => LlType::Float,
        Ty::Float(FloatTy::F64) => LlType::Double,
        Ty::Unit => LlType::Void,
        Ty::Opaque { .. } => LlType::Void,
    }
}

pub fn fn_sig_to_llvm_fn_type(fn_sig: &FnSig) -> (r: FnType)
    requires
        forall|i: int| 0 <= i < fn_sig.inputs@.len() ==> is_mappable(#[trigger] fn_sig.inputs@[i]),
        is_mappable(fn_sig.output),
    ensures
        r@ == llvm_fn_type(*fn_sig),
{
    let mut inputs: Vec<LlType> = Vec::new();
    let mut i: usize = 0;
    while i < fn_sig.inputs.len()
        invariant
            i <= fn_sig.inputs@.len(),
            forall|j: int| 0 <= j < fn_sig.inputs@.len() ==> is_mappable(#[trigger] fn_sig.inputs@[j]),
            inputs@ =~= fn_sig.inputs@.subrange(0, i as int).map_values(|t: Ty| llvm_type(t)),
        decreases fn_sig.inputs@.len() - i,
    {
        inputs.push(ty_to_llvm_type(fn_sig.inputs[i]));
        i = i + 1;
        assert(inputs@ =~= fn_sig.inputs@.subrange(0, i as int).map_values(|t: Ty| llvm_type(t)));
    }
    assert(fn_sig.inputs@.subrange(0, i as int) =~= fn_sig.inputs@);
    let output = ty_to_llvm_type(fn_sig.output);
    FnType { params: inputs, ret: output }
}

} // verus!
