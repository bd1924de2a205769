//! The mid-level IR that the front end hands over: typed locals, basic blocks
//! of assignments, and one terminator per block.
use vstd::prelude::*;

verus! {

#[derive(Clone, Copy, Debug, PartialEq, Eq, Structural)]
pub enum IntTy {
    I8,
    I16,
    I32,
    I64,
    I128,
}

#[derive(Clone, Copy, Debug, PartialEq, Eq, Structural)]
pub enum UintTy {
    U8,
    U16,
    U32,
    U64,
    U128,
}

#[derive(Clone, Copy, Debug, PartialEq, Eq, Structural)]
pub enum FloatTy {
    F32,
    F64,
}

/// A source value type. `Opaque` stands for every type the lowering does not
/// map (aggregates, pointers, pointer-sized integers, ...), with the size that
/// the front end's layout gave it.
#[derive(Clone, Copy, Debug, PartialEq, Eq, Structural)]
pub enum Ty {
    Bool,
    Char,
    Int(IntTy),
    Uint(UintTy),
    Float(FloatTy),
    Unit,
    Opaque { size: u64 },
}

impl IntTy {
    pub open spec fn spec_bits(self) -> u32 {
        match self {
            IntTy::I8 => 8,
            IntTy::I16 => 16,
            IntTy::I32 => 32,
            IntTy::I64 => 64,
            IntTy::I128 => 128,
        }
    }

    #[verifier::when_used_as_spec(spec_bits)]
    pub fn bits(self) -> (r: u32)
        ensures
            r == self.spec_bits(),
    {
        match self {
            IntTy::I8 => 8,
            IntTy::I16 => 16,
            IntTy::I32 => 32,
            IntTy::I64 => 64,
            IntTy::I128 => 128,
        }
    }
}

impl UintTy {
    pub open spec fn spec_bits(self) -> u32 {
        match self {
            UintTy::U8 => 8,
            UintTy::U16 => 16,
            UintTy::U32 => 32,
            UintTy::U64 => 64,
            UintTy::U128 => 128,
        }
    }

    #[verifier::when_used_as_spec(spec_bits)]
    pub fn bits(self) -> (r: u32)
        ensures
            r == self.spec_bits(),
    {
        match self {
            UintTy::U8 => 8,
            UintTy::U16 => 16,
            UintTy::U32 => 32,
            UintTy::U64 => 64,
            UintTy::U128 => 128,
        }
    }
}

impl Ty {
    /// Size in bytes of a value of this type.
    pub open spec fn spec_size(self) -> u64 {
        match self {
            Ty::Bool => 1,
            Ty::Char => 4,
            Ty::Int(i) => (i.spec_bits() / 8) as u64,
            Ty::Uint(u) => (u.spec_bits() / 8) as u64,
            Ty::Float(FloatTy::F32) => 4,
            Ty::Float(FloatTy::F64) => 8,
            Ty::Unit => 0,
            Ty::Opaque { size } => size,
        }
    }

    #[verifier::when_used_as_spec(spec_size)]
    pub fn size(self) -> (r: u64)
        ensures
            r == self.spec_size(),
    {
        match self {
            Ty::Bool => 1,
            Ty::Char => 4,
            Ty::Int(i) => (i.bits() / 8) as u64,
            Ty::Uint(u) => (u.bits() / 8) as u64,
            Ty::Float(FloatTy::F32) => 4,
            Ty::Float(FloatTy::F64) => 8,
            Ty::Unit => 0,
            Ty::Opaque { size } => size,
        }
    }

    pub open spec fn is_zst(self) -> bool {
        self.spec_size() == 0
    }

    /// Fixed-width signed or unsigned integer.
    pub open spec fn spec_is_integral(self) -> bool {
        self is Int || self is Uint
    }

    #[verifier::when_used_as_spec(spec_is_integral)]
    pub fn is_integral(self) -> (r: bool)
        ensures
            r == self.spec_is_integral(),
    {
        matches!(self, Ty::Int(_) | Ty::Uint(_))
    }

    pub open spec fn spec_is_signed(self) -> bool {
        self is Int
    }

    #[verifier::when_used_as_spec(spec_is_signed)]
    pub fn is_signed(self) -> (r: bool)
        ensures
            r == self.spec_is_signed(),
    {
        matches!(self, Ty::Int(_))
    }

    pub open spec fn is_unit(self) -> bool {
        self is Unit
    }

    /// Types whose values are a plain bit pattern: booleans, characters and
    /// fixed-width integers.
    pub open spec fn is_int_like(self) -> bool {
        self is Bool || self is Char || self is Int || self is Uint
    }

    /// Bit width of an int-like type.
    pub open spec fn spec_int_width(self) -> u32 {
        match self {
            Ty::Bool => 1,
            Ty::Char => 32,
            Ty::Int(i) => i.spec_bits(),
            Ty::Uint(u) => u.spec_bits(),
            _ => 0,
        }
    }

    #[verifier::when_used_as_spec(spec_int_width)]
    pub fn int_width(self) -> (r: u32)
        ensures
            r == self.spec_int_width(),
    {
        match self {
            Ty::Bool => 1,
            Ty::Char => 32,
            Ty::Int(i) => i.bits(),
            Ty::Uint(u) => u.bits(),
            _ => 0,
        }
    }
}

/// A type together with its computed layout.
#[derive(Clone, Copy, Debug, PartialEq, Eq, Structural)]
pub struct TyAndLayout {
    pub ty: Ty,
    pub size: u64,
}

impl TyAndLayout {
    pub open spec fn spec_is_zst(self) -> bool {
        self.size == 0
    }

    #[verifier::when_used_as_spec(spec_is_zst)]
    pub fn is_zst(self) -> (r: bool)
        ensures
            r == self.spec_is_zst(),
    {
        self.size == 0
    }
}

pub open spec fn spec_layout_of(ty: Ty) -> TyAndLayout {
    TyAndLayout { ty, size: ty.spec_size() }
}

#[verifier::when_used_as_spec(spec_layout_of)]
pub fn layout_of(ty: Ty) -> (r: TyAndLayout)
    ensures
        r == spec_layout_of(ty),
{
    TyAndLayout { ty, size: ty.size() }
}

/// A compile-time constant: its type and its raw bit pattern.
#[derive(Clone, Copy, Debug, PartialEq, Eq, Structural)]
pub struct Constant {
    pub ty: Ty,
    pub bits: u128,
}

#[derive(Clone, Copy, Debug, PartialEq, Eq, Structural)]
pub enum Operand {
    Copy(usize),
    Move(usize),
    Constant(Constant),
}

#[derive(Clone, Copy, Debug, PartialEq, Eq, Structural)]
pub enum BinOp {
    Add,
    Sub,
    Mul,
    Div,
    Rem,
    BitXor,
    BitAnd,
    BitOr,
    Shl,
    Shr,
    Eq,
    Lt,
    Le,
    Ne,
    Ge,
    Gt,
}

/// The right-hand side of an assignment. `Other` is any shape the lowering
/// does not handle.
#[derive(Clone, Copy, Debug, PartialEq, Eq, Structural)]
pub enum Rvalue {
    Use(Operand),
    BinaryOp(BinOp, Operand, Operand),
    Other,
}

/// A statement. `Other` is any statement kind besides assignment.
#[derive(Clone, Copy, Debug, PartialEq, Eq, Structural)]
pub enum Statement {
    Assign { place: usize, rvalue: Rvalue },
    Other,
}

/// One explicit arm of a multi-way integer dispatch.
#[derive(Clone, Copy, Debug, PartialEq, Eq, Structural)]
pub struct SwitchCase {
    pub value: u128,
    pub target: usize,
}

/// The control transfer ending a block. `Other` is any kind besides these
/// three (calls, drops, unwinding, unreachable).
#[derive(Clone, Debug)]
pub enum Terminator {
    Goto { target: usize },
    SwitchInt { discr: Operand, cases: Vec<SwitchCase>, otherwise: usize },
    Return,
    Other,
}

#[derive(Clone, Debug)]
pub struct BasicBlockData {
    pub statements: Vec<Statement>,
    pub terminator: Terminator,
}

/// A function body. Local 0 is the return slot; locals `1..=arg_count` are
/// the parameters, whose source names are in `arg_names`.
#[derive(Clone, Debug)]
pub struct Body {
    pub local_decls: Vec<Ty>,
    pub arg_count: usize,
    pub arg_names: Vec<String>,
    pub basic_blocks: Vec<BasicBlockData>,
}

/// The signature of a function: parameter types and return type.
#[derive(Clone, Debug)]
pub struct FnSig {
    pub inputs: Vec<Ty>,
    pub output: Ty,
}

impl Operand {
    pub open spec fn local_in(self, n: nat) -> bool {
        match self {
            Operand::Copy(l) => l < n,
            Operand::Move(l) => l < n,
            Operand::Constant(_) => true,
        }
    }
}

impl Statement {
    pub open spec fn locals_in(self, n: nat) -> bool {
        match self {
            Statement::Assign { place, rvalue } => place < n && match rvalue {
                Rvalue::Use(op) => op.local_in(n),
                Rvalue::BinaryOp(_, a, b) => a.local_in(n) && b.local_in(n),
                Rvalue::Other => true,
            },
            Statement::Other => true,
        }
    }
}

impl Terminator {
    pub open spec fn refs_in(self, nlocals: nat, nblocks: nat) -> bool {
        match self {
            Terminator::Goto { target } => target < nblocks,
            Terminator::SwitchInt { discr, cases, otherwise } => {
                &&& discr.local_in(nlocals)
                &&& otherwise < nblocks
                &&& forall|i: int| 0 <= i < cases@.len() ==> #[trigger] cases@[i].target < nblocks
            },
            Terminator::Return => true,
            Terminator::Other => true,
        }
    }
}

impl Body {
    pub open spec fn is_arg(self, l: int) -> bool {
        1 <= l <= self.arg_count
    }

    pub open spec fn local_ty(self, l: int) -> Ty {
        self.local_decls@[l]
    }

    /// The shape that the front end guarantees: a return slot, one name per
    /// parameter, at least one block, and every local and block index in range.
    /// (The block count leaves room for the extra entry block.)
    pub open spec fn wf(self) -> bool {
        let nl = self.local_decls@.len();
        let nb = self.basic_blocks@.len();
        &&& nl >= 1
        &&& self.arg_count < nl
        &&& self.arg_names@.len() == self.arg_count
        &&& 1 <= nb < usize::MAX
        &&& forall|b: int, s: int|
            0 <= b < nb && 0 <= s < self.basic_blocks@[b].statements@.len()
                ==> (#[trigger] self.basic_blocks@[b].statements@[s]).locals_in(nl)
        &&& forall|b: int| 0 <= b < nb ==> (#[trigger] self.basic_blocks@[b]).terminator.refs_in(nl, nb)
    }
}

impl Body {
    /// The signature: the parameters' types and the return slot's type.
    pub fn fn_sig(&self) -> (r: FnSig)
        requires
            self.arg_count < self.local_decls@.len(),
        ensures
            r.inputs@ == self.local_decls@.subrange(1, self.arg_count + 1),
            r.output == self.local_decls@[0],
    {
        let mut inputs: Vec<Ty> = Vec::new();
        let mut i: usize = 0;
        while i < self.arg_count
            invariant
                self.arg_count < self.local_decls@.len(),
                i <= self.arg_count,
                inputs@ == self.local_decls@.subrange(1, i + 1),
            decreases self.arg_count - i,
        {
            inputs.push(self.local_decls[i + 1]);
            i = i + 1;
            assert(inputs@ =~= self.local_decls@.subrange(1, i + 1));
        }
        FnSig { inputs, output: self.local_decls[0] }
    }
}

} // verus!
