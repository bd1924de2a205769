use tachyon::codegen::{codegen_fn, const_imm, truncate_bits};
use tachyon::llir::{Case, Imm, Inst, IntPredicate, LlType, Module, Value};
use tachyon::mir::{
    BasicBlockData, BinOp, Body, Constant, FloatTy, FnSig, IntTy, Operand, Rvalue, Statement, SwitchCase,
    Terminator, Ty, UintTy,
};
use tachyon::place::{AlreadyBound, StorageCell};
use tachyon::support::lowerable;
use tachyon::ty::{fn_sig_to_llvm_fn_type, ty_to_llvm_type};

const I32: Ty = Ty::Int(IntTy::I32);

fn body(locals: Vec<Ty>, names: &[&str], blocks: Vec<BasicBlockData>) -> Body {
    Body {
        local_decls: locals,
        arg_count: names.len(),
        arg_names: names.iter().map(|n| n.to_string()).collect(),
        basic_blocks: blocks,
    }
}

fn block(statements: Vec<Statement>, terminator: Terminator) -> BasicBlockData {
    BasicBlockData { statements, terminator }
}

fn assign(place: usize, rvalue: Rvalue) -> Statement {
    Statement::Assign { place, rvalue }
}

fn lower(name: &str, b: &Body) -> Module {
    assert!(lowerable(b));
    let mut module = Module::new("top".to_string());
    codegen_fn(&mut module, name.to_string(), b);
    module
}

fn add_body() -> Body {
    body(
        vec![I32, I32, I32],
        &["a", "b"],
        vec![block(
            vec![assign(0, Rvalue::BinaryOp(BinOp::Add, Operand::Copy(1), Operand::Copy(2)))],
            Terminator::Return,
        )],
    )
}

fn max_body() -> Body {
    body(
        vec![I32, I32, I32, Ty::Bool],
        &["a", "b"],
        vec![
            block(
                vec![assign(3, Rvalue::BinaryOp(BinOp::Lt, Operand::Copy(1), Operand::Copy(2)))],
                Terminator::SwitchInt {
                    discr: Operand::Move(3),
                    cases: vec![SwitchCase { value: 0, target: 2 }],
                    otherwise: 1,
                },
            ),
            block(vec![assign(0, Rvalue::Use(Operand::Copy(2)))], Terminator::Return),
            block(vec![assign(0, Rvalue::Use(Operand::Copy(1)))], Terminator::Return),
        ],
    )
}

fn compare_with_const(param: Ty, op: BinOp, c: Constant) -> Body {
    body(
        vec![Ty::Bool, param],
        &["x"],
        vec![block(
            vec![assign(0, Rvalue::BinaryOp(op, Operand::Copy(1), Operand::Constant(c)))],
            Terminator::Return,
        )],
    )
}

#[test]
fn add_lowers_to_integer_add() {
    let module = lower("add", &add_body());
    assert_eq!(module.name, "top");
    assert_eq!(module.functions.len(), 1);
    let f = &module.functions[0];
    assert_eq!(f.name, "add");
    assert_eq!(f.ty.params, vec![LlType::Int(32), LlType::Int(32)]);
    assert_eq!(f.ty.ret, LlType::Int(32));
    assert_eq!(f.param_names, vec!["a".to_string(), "b".to_string()]);
    assert_eq!(f.blocks.len(), 2);
    assert!(matches!(
        f.blocks[0].as_slice(),
        [Inst::Alloca { ty: LlType::Int(32), local: 0 }, Inst::Br { target: 1 }]
    ));
    assert!(matches!(
        f.blocks[1].as_slice(),
        [
            Inst::Add { lhs: Value::Param(0), rhs: Value::Param(1) },
            Inst::Store { val: Value::Inst(0), ptr: Value::Slot(0) },
            Inst::Load { ty: LlType::Int(32), ptr: Value::Slot(0) },
            Inst::Ret { val: Value::Inst(2) },
        ]
    ));
}

#[test]
fn unit_function_returns_without_value() {
    let b = body(vec![Ty::Unit], &[], vec![block(vec![], Terminator::Return)]);
    let module = lower("identity_unit", &b);
    let f = &module.functions[0];
    assert_eq!(f.ty.params, vec![]);
    assert_eq!(f.ty.ret, LlType::Void);
    assert_eq!(f.blocks.len(), 2);
    assert!(matches!(f.blocks[0].as_slice(), [Inst::Br { target: 1 }]));
    assert!(matches!(f.blocks[1].as_slice(), [Inst::RetVoid]));
}

#[test]
fn max_dispatches_on_signed_less_than() {
    let module = lower("max", &max_body());
    let f = &module.functions[0];
    assert_eq!(f.blocks.len(), 4);
    assert!(matches!(
        f.blocks[0].as_slice(),
        [
            Inst::Alloca { ty: LlType::Int(32), local: 0 },
            Inst::Alloca { ty: LlType::Int(1), local: 3 },
            Inst::Br { target: 1 },
        ]
    ));
    match f.blocks[1].as_slice() {
        [
            Inst::ICmp { pred: IntPredicate::Slt, lhs: Value::Param(0), rhs: Value::Param(1) },
            Inst::Store { val: Value::Inst(0), ptr: Value::Slot(3) },
            Inst::Load { ty: LlType::Int(1), ptr: Value::Slot(3) },
            Inst::Switch { discr: Value::Inst(2), default: 2, cases },
        ] => {
            assert_eq!(cases, &vec![Case { value: Imm { width: 1, bits: 0 }, target: 3 }]);
        },
        other => panic!("unexpected block {:?}", other),
    }
    assert!(matches!(
        f.blocks[2].as_slice(),
        [
            Inst::Store { val: Value::Param(1), ptr: Value::Slot(0) },
            Inst::Load { ty: LlType::Int(32), ptr: Value::Slot(0) },
            Inst::Ret { val: Value::Inst(1) },
        ]
    ));
    assert!(matches!(
        f.blocks[3].as_slice(),
        [
            Inst::Store { val: Value::Param(0), ptr: Value::Slot(0) },
            Inst::Load { ty: LlType::Int(32), ptr: Value::Slot(0) },
            Inst::Ret { val: Value::Inst(1) },
        ]
    ));
}

#[test]
fn constant_255_unsigned_compare() {
    let c = Constant { ty: Ty::Uint(UintTy::U8), bits: 255 };
    let module = lower("f", &compare_with_const(Ty::Uint(UintTy::U8), BinOp::Lt, c));
    assert!(matches!(
        module.functions[0].blocks[1][0],
        Inst::ICmp { pred: IntPredicate::Ult, lhs: Value::Param(0), rhs: Value::Imm(Imm { width: 8, bits: 0xFF }) }
    ));
}

#[test]
fn constant_255_signed_compare() {
    let c = Constant { ty: Ty::Int(IntTy::I8), bits: 255 };
    let module = lower("f", &compare_with_const(Ty::Int(IntTy::I8), BinOp::Lt, c));
    assert!(matches!(
        module.functions[0].blocks[1][0],
        Inst::ICmp { pred: IntPredicate::Slt, lhs: Value::Param(0), rhs: Value::Imm(Imm { width: 8, bits: 0xFF }) }
    ));
}

#[test]
fn less_or_equal_follows_signedness() {
    let c = Constant { ty: Ty::Uint(UintTy::U16), bits: 7 };
    let module = lower("f", &compare_with_const(Ty::Uint(UintTy::U16), BinOp::Le, c));
    assert!(matches!(module.functions[0].blocks[1][0], Inst::ICmp { pred: IntPredicate::Ule, .. }));
    let c = Constant { ty: Ty::Int(IntTy::I64), bits: 7 };
    let module = lower("f", &compare_with_const(Ty::Int(IntTy::I64), BinOp::Le, c));
    assert!(matches!(
        module.functions[0].blocks[1][0],
        Inst::ICmp { pred: IntPredicate::Sle, rhs: Value::Imm(Imm { width: 64, bits: 7 }), .. }
    ));
}

#[test]
fn equality_and_subtraction() {
    let c = Constant { ty: I32, bits: 1 };
    let module = lower("f", &compare_with_const(I32, BinOp::Eq, c));
    assert!(matches!(module.functions[0].blocks[1][0], Inst::ICmp { pred: IntPredicate::Eq, .. }));
    let b = body(
        vec![I32, I32],
        &["x"],
        vec![block(
            vec![assign(0, Rvalue::BinaryOp(BinOp::Sub, Operand::Copy(1), Operand::Constant(c)))],
            Terminator::Return,
        )],
    );
    let module = lower("f", &b);
    assert!(matches!(
        module.functions[0].blocks[1][0],
        Inst::Sub { lhs: Value::Param(0), rhs: Value::Imm(Imm { width: 32, bits: 1 }) }
    ));
}

#[test]
fn block_count_matches_source() {
    let blocks = (0..5)
        .map(|i| block(vec![], if i < 4 { Terminator::Goto { target: i + 1 } } else { Terminator::Return }))
        .collect();
    let b = body(vec![Ty::Unit], &[], blocks);
    let module = lower("chain", &b);
    let f = &module.functions[0];
    assert_eq!(f.blocks.len(), 6);
    for i in 0..4 {
        assert!(matches!(f.blocks[i + 1].as_slice(), [Inst::Br { target }] if *target == i + 2));
    }
    assert!(matches!(f.blocks[5].as_slice(), [Inst::RetVoid]));
}

#[test]
fn zero_sized_locals_get_no_storage() {
    let zst = Ty::Opaque { size: 0 };
    let b = body(
        vec![Ty::Unit, zst, zst, I32],
        &[],
        vec![block(
            vec![
                assign(1, Rvalue::Use(Operand::Copy(2))),
                assign(3, Rvalue::Use(Operand::Constant(Constant { ty: I32, bits: 9 }))),
            ],
            Terminator::Return,
        )],
    );
    let module = lower("f", &b);
    let f = &module.functions[0];
    assert!(matches!(
        f.blocks[0].as_slice(),
        [Inst::Alloca { ty: LlType::Int(32), local: 3 }, Inst::Br { target: 1 }]
    ));
    assert!(matches!(
        f.blocks[1].as_slice(),
        [Inst::Store { val: Value::Imm(Imm { width: 32, bits: 9 }), ptr: Value::Slot(3) }, Inst::RetVoid]
    ));
}

#[test]
fn storage_cell_binds_once() {
    let mut cell = StorageCell::new();
    assert_eq!(cell.bind(Value::Param(0)), Ok(()));
    assert_eq!(cell.bind(Value::Slot(4)), Err(AlreadyBound));
    assert_eq!(cell, StorageCell::Bound(Value::Param(0)));
    assert_eq!(cell.get(), Value::Param(0));
}

#[test]
fn switch_keeps_every_case_and_default() {
    let b = body(
        vec![Ty::Unit, Ty::Uint(UintTy::U8)],
        &["x"],
        vec![
            block(
                vec![],
                Terminator::SwitchInt {
                    discr: Operand::Copy(1),
                    cases: vec![
                        SwitchCase { value: 7, target: 1 },
                        SwitchCase { value: 3, target: 2 },
                        SwitchCase { value: 0x1FF, target: 1 },
                    ],
                    otherwise: 3,
                },
            ),
            block(vec![], Terminator::Return),
            block(vec![], Terminator::Return),
            block(vec![], Terminator::Return),
        ],
    );
    let module = lower("f", &b);
    match module.functions[0].blocks[1].as_slice() {
        [Inst::Switch { discr: Value::Param(0), default: 4, cases }] => {
            assert_eq!(
                cases,
                &vec![
                    Case { value: Imm { width: 8, bits: 7 }, target: 2 },
                    Case { value: Imm { width: 8, bits: 3 }, target: 3 },
                    Case { value: Imm { width: 8, bits: 0xFF }, target: 2 },
                ]
            );
        },
        other => panic!("unexpected block {:?}", other),
    }
}

#[test]
fn wide_switch_values_are_kept() {
    let big: u128 = 1 << 100;
    let b = body(
        vec![Ty::Unit, Ty::Uint(UintTy::U128)],
        &["x"],
        vec![
            block(
                vec![],
                Terminator::SwitchInt {
                    discr: Operand::Copy(1),
                    cases: vec![SwitchCase { value: big, target: 1 }],
                    otherwise: 1,
                },
            ),
            block(vec![], Terminator::Return),
        ],
    );
    let module = lower("f", &b);
    match module.functions[0].blocks[1].as_slice() {
        [Inst::Switch { cases, .. }] => assert_eq!(cases[0].value, Imm { width: 128, bits: big }),
        other => panic!("unexpected block {:?}", other),
    }
}

#[test]
fn float_locals_are_copied_through_memory() {
    let f64t = Ty::Float(FloatTy::F64);
    let b = body(
        vec![f64t, f64t, f64t],
        &["x"],
        vec![block(
            vec![assign(2, Rvalue::Use(Operand::Copy(1))), assign(0, Rvalue::Use(Operand::Move(2)))],
            Terminator::Return,
        )],
    );
    let module = lower("f", &b);
    let f = &module.functions[0];
    assert_eq!(f.ty.params, vec![LlType::Double]);
    assert!(matches!(
        f.blocks[0].as_slice(),
        [
            Inst::Alloca { ty: LlType::Double, local: 0 },
            Inst::Alloca { ty: LlType::Double, local: 2 },
            Inst::Br { target: 1 },
        ]
    ));
    assert!(matches!(
        f.blocks[1].as_slice(),
        [
            Inst::Store { val: Value::Param(0), ptr: Value::Slot(2) },
            Inst::Load { ty: LlType::Double, ptr: Value::Slot(2) },
            Inst::Store { val: Value::Inst(1), ptr: Value::Slot(0) },
            Inst::Load { ty: LlType::Double, ptr: Value::Slot(0) },
            Inst::Ret { val: Value::Inst(3) },
        ]
    ));
}

#[test]
fn unsupported_constructs_are_refused() {
    assert!(lowerable(&add_body()));
    assert!(lowerable(&max_body()));

    let mut b = add_body();
    b.basic_blocks[0].statements[0] = assign(0, Rvalue::BinaryOp(BinOp::Mul, Operand::Copy(1), Operand::Copy(2)));
    assert!(!lowerable(&b));

    let mut b = add_body();
    b.basic_blocks[0].terminator = Terminator::Other;
    assert!(!lowerable(&b));

    let mut b = add_body();
    b.basic_blocks[0].statements.push(Statement::Other);
    assert!(!lowerable(&b));

    let mut b = add_body();
    b.basic_blocks[0].statements[0] = assign(0, Rvalue::Other);
    assert!(!lowerable(&b));

    let wide = Constant { ty: Ty::Int(IntTy::I128), bits: 1 };
    assert!(!lowerable(&compare_with_const(Ty::Int(IntTy::I128), BinOp::Lt, wide)));

    let f32t = Ty::Float(FloatTy::F32);
    let b = body(
        vec![f32t, f32t, f32t],
        &["a", "b"],
        vec![block(
            vec![assign(0, Rvalue::BinaryOp(BinOp::Add, Operand::Copy(1), Operand::Copy(2)))],
            Terminator::Return,
        )],
    );
    assert!(!lowerable(&b));

    let b = body(vec![Ty::Opaque { size: 16 }], &[], vec![block(vec![], Terminator::Return)]);
    assert!(!lowerable(&b));
}

#[test]
fn malformed_bodies_are_refused() {
    let mut b = add_body();
    b.basic_blocks[0].terminator = Terminator::Goto { target: 1 };
    assert!(!lowerable(&b));

    let mut b = add_body();
    b.basic_blocks[0].statements[0] = assign(5, Rvalue::Use(Operand::Copy(1)));
    assert!(!lowerable(&b));

    let mut b = max_body();
    b.basic_blocks[0].terminator =
        Terminator::SwitchInt { discr: Operand::Copy(3), cases: vec![SwitchCase { value: 0, target: 9 }], otherwise: 1 };
    assert!(!lowerable(&b));

    let mut b = add_body();
    b.arg_names.pop();
    assert!(!lowerable(&b));

    let mut b = add_body();
    b.basic_blocks.clear();
    assert!(!lowerable(&b));
}

#[test]
fn type_mapping() {
    assert_eq!(ty_to_llvm_type(Ty::Bool), LlType::Int(1));
    assert_eq!(ty_to_llvm_type(Ty::Char), LlType::Int(32));
    assert_eq!(ty_to_llvm_type(Ty::Int(IntTy::I8)), LlType::Int(8));
    assert_eq!(ty_to_llvm_type(Ty::Uint(UintTy::U128)), LlType::Int(128));
    assert_eq!(ty_to_llvm_type(Ty::Float(FloatTy::F32)), LlType::Float);
    assert_eq!(ty_to_llvm_type(Ty::Float(FloatTy::F64)), LlType::Double);
    assert_eq!(ty_to_llvm_type(Ty::Unit), LlType::Void);
    let sig = FnSig { inputs: vec![Ty::Bool, Ty::Uint(UintTy::U16)], output: Ty::Unit };
    let ty = fn_sig_to_llvm_fn_type(&sig);
    assert_eq!(ty.params, vec![LlType::Int(1), LlType::Int(16)]);
    assert_eq!(ty.ret, LlType::Void);
}

#[test]
fn constants_keep_their_low_bits() {
    assert_eq!(truncate_bits(0x1FF, 8), 0xFF);
    assert_eq!(truncate_bits(3, 1), 1);
    assert_eq!(truncate_bits(0x1_0000_0005, 32), 5);
    assert_eq!(truncate_bits(u128::MAX, 64), u64::MAX as u128);
    assert_eq!(truncate_bits(u128::MAX, 128), u128::MAX);
    assert_eq!(const_imm(Constant { ty: Ty::Bool, bits: 1 }), Imm { width: 1, bits: 1 });
    assert_eq!(const_imm(Constant { ty: Ty::Char, bits: 'A' as u128 }), Imm { width: 32, bits: 65 });
}
