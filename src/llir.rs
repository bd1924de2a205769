//! The target IR: functions made of basic blocks of instructions, with
//! explicit stack slots. An instruction's result is named by its position in
//! its own block.
use vstd::prelude::*;

verus! {

#[derive(Clone, Copy, Debug, PartialEq, Eq, Structural)]
pub enum LlType {
    Void,
    Int(u32),
    Float,
    Double,
}

/// An integer immediate: a bit width and an unsigned bit pattern that fits it.
#[derive(Clone, Copy, Debug, PartialEq, Eq, Structural)]
pub struct Imm {
    pub width: u32,
    pub bits: u128,
}

#[derive(Clone, Copy, Debug, PartialEq, Eq, Structural)]
pub enum Value {
    /// The incoming parameter with this index.
    Param(usize),
    /// The address of the stack slot of the local with this index.
    Slot(usize),
    /// The result of the instruction at this position of the current block.
    Inst(usize),
    Imm(Imm),
}

#[derive(Clone, Copy, Debug, PartialEq, Eq, Structural)]
pub enum IntPredicate {
    Eq,
    Ult,
    Ule,
    Slt,
    Sle,
}

/// One arm of a switch: the value compared against and the target block.
#[derive(Clone, Copy, Debug, PartialEq, Eq, Structural)]
pub struct Case {
    pub value: Imm,
    pub target: usize,
}

/// Block targets are indices into the function's block list.
#[derive(Clone, Debug)]
pub enum Inst {
    /// A stack slot for the local `local`, holding a value of type `ty`.
    Alloca { ty: LlType, local: usize },
    Load { ty: LlType, ptr: Value },
    Store { val: Value, ptr: Value },
    Add { lhs: Value, rhs: Value },
    Sub { lhs: Value, rhs: Value },
    ICmp { pred: IntPredicate, lhs: Value, rhs: Value },
    Br { target: usize },
    Switch { discr: Value, default: usize, cases: Vec<Case> },
    Ret { val: Value },
    RetVoid,
}

pub ghost enum InstV {
    Alloca { ty: LlType, local: usize },
    Load { ty: LlType, ptr: Value },
    Store { val: Value, ptr: Value },
    Add { lhs: Value, rhs: Value },
    Sub { lhs: Value, rhs: Value },
    ICmp { pred: IntPredicate, lhs: Value, rhs: Value },
    Br { target: usize },
    Switch { discr: Value, default: usize, cases: Seq<Case> },
    Ret { val: Value },
    RetVoid,
}

impl View for Inst {
    type V = InstV;

    open spec fn view(&self) -> InstV {
        match *self {
            Inst::Alloca { ty, local } => InstV::Alloca { ty, local },
            Inst::Load { ty, ptr } => InstV::Load { ty, ptr },
            Inst::Store { val, ptr } => InstV::Store { val, ptr },
            Inst::Add { lhs, rhs } => InstV::Add { lhs, rhs },
            Inst::Sub { lhs, rhs } => InstV::Sub { lhs, rhs },
            Inst::ICmp { pred, lhs, rhs } => InstV::ICmp { pred, lhs, rhs },
            Inst::Br { target } => InstV::Br { target },
            Inst::Switch { discr, default, cases } => InstV::Switch { discr, default, cases: cases@ },
            Inst::Ret { val } => InstV::Ret { val },
            Inst::RetVoid => InstV::RetVoid,
        }
    }
}

pub open spec fn insts_view(insts: Seq<Inst>) -> Seq<InstV> {
    insts.map_values(|i: Inst| i@)
}

pub open spec fn blocks_view(blocks: Seq<Vec<Inst>>) -> Seq<Seq<InstV>> {
    blocks.map_values(|b: Vec<Inst>| insts_view(b@))
}

/// A non-variadic function type.
#[derive(Clone, Debug)]
pub struct FnType {
    pub params: Vec<LlType>,
    pub ret: LlType,
}

pub ghost struct FnTypeV {
    pub params: Seq<LlType>,
    pub ret: LlType,
}

impl View for FnType {
    type V = FnTypeV;

    open spec fn view(&self) -> FnTypeV {
        FnTypeV { params: self.params@, ret: self.ret }
    }
}

/// A function under construction or finished. Block 0 is the entry block.
#[derive(Clone, Debug)]
pub struct LlFunction {
    pub name: String,
    pub ty: FnType,
    pub param_names: Vec<String>,
    pub blocks: Vec<Vec<Inst>>,
}

pub ghost struct LlFunctionV {
    pub name: Seq<char>,
    pub ty: FnTypeV,
    pub param_names: Seq<Seq<char>>,
    pub blocks: Seq<Seq<InstV>>,
}

impl View for LlFunction {
    type V = LlFunctionV;

    open spec fn view(&self) -> LlFunctionV {
        LlFunctionV {
            name: self.name@,
            ty: self.ty@,
            param_names: self.param_names@.map_values(|s: String| s@),
            blocks: blocks_view(self.blocks@),
        }
    }
}

impl LlFunction {
    /// A function with the given name and type and no blocks yet.
    pub fn new(name: String, ty: FnType) -> (r: LlFunction)
        ensures
            r@ == (LlFunctionV {
                name: name@,
                ty: ty@,
                param_names: Seq::empty(),
                blocks: Seq::empty(),
            }),
    {
        let r = LlFunction { name, ty, param_names: Vec::new(), blocks: Vec::new() };
        assert(r@.param_names =~= Seq::empty());
        assert(r@.blocks =~= Seq::empty());
        r
    }
}

/// A compilation unit: a name and the functions added to it, in order.
#[derive(Clone, Debug)]
pub struct Module {
    pub name: String,
    pub functions: Vec<LlFunction>,
}

pub ghost struct ModuleV {
    pub name: Seq<char>,
    pub functions: Seq<LlFunctionV>,
}

impl View for Module {
    type V = ModuleV;

    open spec fn view(&self) -> ModuleV {
        ModuleV { name: self.name@, functions: self.functions@.map_values(|f: LlFunction| f@) }
    }
}

impl Module {
    pub fn new(name: String) -> (r: Module)
        ensures
            r@ == (ModuleV { name: name@, functions: Seq::empty() }),
    {
        let r = Module { name, functions: Vec::new() };
        assert(r@.functions =~= Seq::empty());
        r
    }
}

} // verus!
