//! Storage of locals: write-once cells and typed places.
use vstd::prelude::*;

use crate::builder::Builder;
use crate::llir::{Inst, InstV, Value};
use crate::mir::{Ty, TyAndLayout};
use crate::ty::{is_mappable, llvm_type, ty_to_llvm_type};

verus! {

/// A storage descriptor that is bound at most once.
#[derive(Clone, Copy, Debug, PartialEq, Eq, Structural)]
pub enum StorageCell {
    Unbound,
    Bound(Value),
}

/// A second attempt to bind a storage cell.
#[derive(Clone, Copy, Debug, PartialEq, Eq, Structural)]
pub struct AlreadyBound;

impl StorageCell {
    pub open spec fn value(self) -> Option<Value> {
        match self {
            StorageCell::Unbound => None,
            StorageCell::Bound(v) => Some(v),
        }
    }

    /// Whether a bind is accepted, and the cell after a bind of `v`.
    pub open spec fn accepts_bind(self) -> bool {
        self is Unbound
    }

    pub open spec fn after_bind(self, v: Value) -> StorageCell {
        if self.accepts_bind() {
            StorageCell::Bound(v)
        } else {
            self
        }
    }

    pub fn new() -> (r: StorageCell)
        ensures
            r == StorageCell::Unbound,
    {
        StorageCell::Unbound
    }

    /// Binds the cell to `v`; a cell that is already bound rejects it and
    /// keeps its value.
    pub fn bind(&mut self, v: Value) -> (r: Result<(), AlreadyBound>)
        ensures
            r is Ok <==> old(self).accepts_bind(),
            *final(self) == old(self).after_bind(v),
    {
        match *self {
            StorageCell::Unbound => {
                *self = StorageCell::Bound(v);
                Ok(())
            },
            StorageCell::Bound(_) => Err(AlreadyBound),
        }
    }

    pub fn get(&self) -> (r: Value)
        requires
            self is Bound,
        ensures
            self.value() == Some(r),
    {
        match *self {
            StorageCell::Bound(v) => v,
            StorageCell::Unbound => Value::Param(0),
        }
    }
}

/// The instructions that bring a value into a register: a load when it is
/// the address of a stack slot, nothing otherwise.
pub open spec fn load_seq(val: Option<Value>, ty: Ty) -> Seq<InstV> {
    match val {
        Some(Value::Slot(l)) => seq![InstV::Load { ty: llvm_type(ty), ptr: Value::Slot(l) }],
        _ => Seq::empty(),
    }
}

/// The value after `load_seq`, when its first instruction sits at `at`.
pub open spec fn after_load(val: Option<Value>, at: int) -> Option<Value> {
    match val {
        Some(Value::Slot(_)) => Some(Value::Inst(at as usize)),
        _ => val,
    }
}

/// A store of `val` to `dest`, when both carry something.
pub open spec fn store_seq(val: Option<Value>, dest: Option<Value>) -> Seq<InstV> {
    match (val, dest) {
        (Some(v), Some(p)) => seq![InstV::Store { val: v, ptr: p }],
        _ => Seq::empty(),
    }
}

/// A typed value: a register value, the address of a stack slot, or nothing
/// for a zero-sized value.
#[derive(Clone, Copy, Debug, PartialEq, Eq, Structural)]
pub struct TPlace {
    pub ty_and_layout: TyAndLayout,
    pub llval: StorageCell,
}

impl TPlace {
    /// Where a store into this place goes: nowhere for a zero-sized place.
    pub open spec fn store_target(self) -> Option<Value> {
        if self.ty_and_layout.spec_is_zst() {
            None
        } else {
            self.llval.value()
        }
    }

    pub fn ty(&self) -> (r: Ty)
        ensures
            r == self.ty_and_layout.ty,
    {
        self.ty_and_layout.ty
    }

    pub fn llval(&self) -> (r: Value)
        requires
            self.llval is Bound,
        ensures
            self.llval.value() == Some(r),
    {
        self.llval.get()
    }

    /// Loads the value when it is in memory; a register value or an empty
    /// place is returned as it is.
    pub fn load_scalar(self, bx: &mut Builder) -> (r: TPlace)
        requires
            old(bx).cursor < old(bx).func@.blocks.len(),
            self.llval.value() is Some && self.llval.value()->0 is Slot ==> is_mappable(self.ty_and_layout.ty),
        ensures
            r.ty_and_layout == self.ty_and_layout,
            r.llval.value() == after_load(self.llval.value(), old(bx).func@.blocks[old(bx).cursor as int].len() as int),
            final(bx).func@.blocks == old(bx).func@.blocks.update(
                old(bx).cursor as int,
                old(bx).func@.blocks[old(bx).cursor as int] + load_seq(self.llval.value(), self.ty_and_layout.ty),
            ),
            final(bx).same_but_blocks(*old(bx)),
    {
        match self.llval {
            StorageCell::Bound(Value::Slot(l)) => {
                let ty = ty_to_llvm_type(self.ty_and_layout.ty);
                let v = bx.build(Inst::Load { ty, ptr: Value::Slot(l) });
                assert(old(bx).func@.blocks[old(bx).cursor as int].push(
                    InstV::Load { ty, ptr: Value::Slot(l) },
                ) =~= old(bx).func@.blocks[old(bx).cursor as int] + load_seq(
                    self.llval.value(),
                    self.ty_and_layout.ty,
                ));
                TPlace { ty_and_layout: self.ty_and_layout, llval: StorageCell::Bound(v) }
            },
            _ => {
                assert(old(bx).func@.blocks.update(
                    old(bx).cursor as int,
                    old(bx).func@.blocks[old(bx).cursor as int] + load_seq(self.llval.value(), self.ty_and_layout.ty),
                ) =~= old(bx).func@.blocks);
                self
            },
        }
    }

    /// Stores this value into `dest`; nothing is emitted when either side is
    /// zero-sized.
    pub fn store(self, bx: &mut Builder, dest: &TPlace)
        requires
            old(bx).cursor < old(bx).func@.blocks.len(),
        ensures
            final(bx).func@.blocks == old(bx).func@.blocks.update(
                old(bx).cursor as int,
                old(bx).func@.blocks[old(bx).cursor as int] + store_seq(self.llval.value(), dest.store_target()),
            ),
            final(bx).same_but_blocks(*old(bx)),
    {
        let c = bx.cursor;
        if let StorageCell::Bound(v) = self.llval {
            if !dest.ty_and_layout.is_zst() {
                if let StorageCell::Bound(p) = dest.llval {
                    bx.build(Inst::Store { val: v, ptr: p });
                    assert(old(bx).func@.blocks[c as int].push(InstV::Store { val: v, ptr: p })
                        =~= old(bx).func@.blocks[c as int] + store_seq(self.llval.value(), dest.store_target()));
                    return;
                }
            }
        }
        assert(old(bx).func@.blocks.update(
            c as int,
            old(bx).func@.blocks[c as int] + store_seq(self.llval.value(), dest.store_target()),
        ) =~= old(bx).func@.blocks);
    }
}

} // verus!
