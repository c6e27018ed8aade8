use ant_compiler::ast::{IntTy, IntValue, Ty, TypeContext, TypedExpression};
use ant_compiler::compile_state::FunctionState;
use ant_compiler::clif::ClifInt;
use ant_compiler::infix::{
    compile_infix, compile_infix_iadd, compile_infix_ieq, compile_infix_imul, compile_infix_ineq, compile_infix_isub,
    plan_infix, InfixInst, InfixPlan, IntCond,
};
use cranelift::codegen::ir::{condcodes, Function, InstructionData, Opcode};
use cranelift::prelude::{types, FunctionBuilder, FunctionBuilderContext, Type, Value};

/// The type and stored immediate of the `iconst` that defines `v`.
fn constant_of(state: &FunctionState<'_>, v: Value) -> (Type, i64) {
    let dfg = &state.builder.func.dfg;
    let inst = dfg.value_def(v).unwrap_inst();
    match dfg.insts[inst] {
        InstructionData::UnaryImm { imm, .. } => (dfg.value_type(v), imm.bits()),
        ref other => panic!("not a constant: {:?}", other),
    }
}

fn with_state(f: impl FnOnce(&mut FunctionState<'_>)) {
    let mut func = Function::new();
    let mut ctx = FunctionBuilderContext::new();
    let mut b = FunctionBuilder::new(&mut func, &mut ctx);
    let block = b.create_block();
    b.switch_to_block(block);
    let mut state = FunctionState::new(b, TypeContext::new());
    f(&mut state);
}

#[test]
fn folds_i32_addition() {
    with_state(|s| {
        let v = compile_infix_iadd(s, IntValue::I32(2), IntValue::I32(3));
        assert_eq!(constant_of(s, v), (types::I32, 5));
    });
}

#[test]
fn folds_i64_subtraction_and_multiplication() {
    with_state(|s| {
        let v = compile_infix_isub(s, IntValue::I64(10), IntValue::I64(25));
        assert_eq!(constant_of(s, v), (types::I64, -15));
        let w = compile_infix_imul(s, IntValue::I64(-4), IntValue::I64(1 << 40));
        assert_eq!(constant_of(s, w), (types::I64, -(1i64 << 42)));
    });
}

#[test]
fn narrow_results_are_stored_in_their_low_bits() {
    with_state(|s| {
        let v = compile_infix_iadd(s, IntValue::I8(-3), IntValue::I8(1));
        assert_eq!(constant_of(s, v), (types::I8, 254));
        let w = compile_infix_imul(s, IntValue::U16(300), IntValue::U16(200));
        assert_eq!(constant_of(s, w), (types::I16, 60000));
    });
}

#[test]
fn large_u64_results_are_reinterpreted_as_i64() {
    with_state(|s| {
        let v = compile_infix_iadd(s, IntValue::U64(1 << 63), IntValue::U64(1));
        assert_eq!(constant_of(s, v), (types::I64, i64::MIN + 1));
    });
}

#[test]
fn folded_comparisons_are_i8_flags() {
    with_state(|s| {
        let a = compile_infix_ieq(s, IntValue::U32(7), IntValue::U32(7));
        let b = compile_infix_ineq(s, IntValue::U32(7), IntValue::U32(7));
        let c = compile_infix_ieq(s, IntValue::I16(-1), IntValue::I16(1));
        let d = compile_infix_ineq(s, IntValue::I16(-1), IntValue::I16(1));
        assert_eq!(constant_of(s, a), (types::I8, 1));
        assert_eq!(constant_of(s, b), (types::I8, 0));
        assert_eq!(constant_of(s, c), (types::I8, 0));
        assert_eq!(constant_of(s, d), (types::I8, 1));
    });
}

fn plan_tcx() -> TypeContext {
    let mut t = TypeContext::new();
    t.push(Ty::IntTy(IntTy::I32));
    t.push(Ty::Bool);
    t
}

#[test]
fn literal_operands_are_folded() {
    let tcx = plan_tcx();
    let a = TypedExpression::Int { value: IntValue::I32(1), ty: 0 };
    let b = TypedExpression::Int { value: IntValue::I32(2), ty: 0 };
    assert_eq!(plan_infix("+", &a, &b, &tcx), Some(InfixPlan::FoldAdd));
    assert_eq!(plan_infix("-", &a, &b, &tcx), Some(InfixPlan::FoldSub));
    assert_eq!(plan_infix("*", &a, &b, &tcx), Some(InfixPlan::FoldMul));
    assert_eq!(plan_infix("==", &a, &b, &tcx), Some(InfixPlan::FoldEq));
    assert_eq!(plan_infix("!=", &a, &b, &tcx), Some(InfixPlan::FoldNe));
    assert_eq!(plan_infix("<", &a, &b, &tcx), Some(InfixPlan::Apply(InfixInst::Icmp(IntCond::SignedLessThan))));
    assert_eq!(plan_infix("/", &a, &b, &tcx), Some(InfixPlan::Apply(InfixInst::Fdiv)));
}

#[test]
fn other_operands_get_an_instruction_by_type() {
    let tcx = plan_tcx();
    let x = TypedExpression::Ident("x".to_string(), 0);
    let y = TypedExpression::Int { value: IntValue::I32(2), ty: 0 };
    assert_eq!(plan_infix("+", &x, &y, &tcx), Some(InfixPlan::Apply(InfixInst::Iadd)));
    assert_eq!(plan_infix(">", &x, &y, &tcx), Some(InfixPlan::Apply(InfixInst::Icmp(IntCond::SignedGreaterThan))));
    let p = TypedExpression::Ident("p".to_string(), 1);
    let q = TypedExpression::Bool { value: true, ty: 1 };
    assert_eq!(plan_infix("==", &p, &q, &tcx), Some(InfixPlan::Apply(InfixInst::Icmp(IntCond::Equal))));
    assert_eq!(plan_infix("!=", &p, &q, &tcx), Some(InfixPlan::Apply(InfixInst::Icmp(IntCond::NotEqual))));
}

fn with_types(tcx: TypeContext, f: impl FnOnce(&mut FunctionState<'_>)) {
    let mut func = Function::new();
    let mut ctx = FunctionBuilderContext::new();
    let mut b = FunctionBuilder::new(&mut func, &mut ctx);
    let block = b.create_block();
    b.switch_to_block(block);
    let mut state = FunctionState::new(b, tcx);
    f(&mut state);
}

/// Compiles an operand to a constant: a literal to itself, a name to 40 (or
/// `true` for a boolean name); the name `missing` is an error.
fn operand(s: &mut FunctionState<'_>, e: &TypedExpression) -> Result<Value, String> {
    match e {
        TypedExpression::Int { value: IntValue::I32(n), .. } => Ok(s.emit_iconst(ClifInt::I32, *n as i64)),
        TypedExpression::Bool { value, .. } => Ok(s.emit_iconst(ClifInt::I8, *value as i64)),
        TypedExpression::Ident(name, _) if name == "missing" => Err(format!("undefined variable: {name}")),
        TypedExpression::Ident(_, 1) => Ok(s.emit_iconst(ClifInt::I8, 1)),
        TypedExpression::Ident(..) => Ok(s.emit_iconst(ClifInt::I32, 40)),
        _ => Err("unsupported operand".to_string()),
    }
}

fn never(_: &mut FunctionState<'_>, _: &TypedExpression) -> Result<Value, String> {
    panic!("a folded operation compiles no operand")
}

/// The opcode and operands of the instruction that defines `v`.
fn instruction_of(state: &FunctionState<'_>, v: Value) -> (Opcode, Vec<Value>) {
    let dfg = &state.builder.func.dfg;
    let inst = dfg.value_def(v).unwrap_inst();
    (dfg.insts[inst].opcode(), dfg.inst_args(inst).to_vec())
}

fn instruction_count(state: &FunctionState<'_>) -> usize {
    state.builder.func.dfg.num_insts()
}

#[test]
fn compile_infix_folds_literal_operands() {
    with_types(plan_tcx(), |s| {
        let a = TypedExpression::Int { value: IntValue::I32(7), ty: 0 };
        let b = TypedExpression::Int { value: IntValue::I32(5), ty: 0 };
        let sum = compile_infix(s, "+", &a, &b, &never).unwrap();
        assert_eq!(constant_of(s, sum), (types::I32, 12));
        let diff = compile_infix(s, "-", &a, &b, &never).unwrap();
        assert_eq!(constant_of(s, diff), (types::I32, 2));
        let prod = compile_infix(s, "*", &a, &b, &never).unwrap();
        assert_eq!(constant_of(s, prod), (types::I32, 35));
        let eq = compile_infix(s, "==", &a, &b, &never).unwrap();
        assert_eq!(constant_of(s, eq), (types::I8, 0));
        let ne = compile_infix(s, "!=", &a, &b, &never).unwrap();
        assert_eq!(constant_of(s, ne), (types::I8, 1));
        assert_eq!(instruction_count(s), 5);
    });
}

#[test]
fn compile_infix_applies_an_instruction_to_compiled_operands() {
    with_types(plan_tcx(), |s| {
        let x = TypedExpression::Ident("x".to_string(), 0);
        let one = TypedExpression::Int { value: IntValue::I32(1), ty: 0 };
        let v = compile_infix(s, "+", &x, &one, &operand).unwrap();
        let (opcode, args) = instruction_of(s, v);
        assert_eq!(opcode, Opcode::Iadd);
        assert_eq!(args.len(), 2);
        assert_eq!(constant_of(s, args[0]), (types::I32, 40));
        assert_eq!(constant_of(s, args[1]), (types::I32, 1));
        assert_eq!(instruction_count(s), 3);
        let w = compile_infix(s, "*", &x, &one, &operand).unwrap();
        assert_eq!(instruction_of(s, w).0, Opcode::Imul);
        let d = compile_infix(s, "/", &x, &one, &operand).unwrap();
        assert_eq!(instruction_of(s, d).0, Opcode::Fdiv);
    });
}

#[test]
fn compile_infix_compares_with_the_operator_condition() {
    with_types(plan_tcx(), |s| {
        let a = TypedExpression::Int { value: IntValue::I32(3), ty: 0 };
        let b = TypedExpression::Int { value: IntValue::I32(4), ty: 0 };
        let lt = compile_infix(s, "<", &a, &b, &operand).unwrap();
        let dfg = &s.builder.func.dfg;
        let inst = dfg.value_def(lt).unwrap_inst();
        match dfg.insts[inst] {
            InstructionData::IntCompare { cond, .. } => assert_eq!(cond, condcodes::IntCC::SignedLessThan),
            ref other => panic!("not a comparison: {:?}", other),
        }
        let p = TypedExpression::Ident("p".to_string(), 1);
        let q = TypedExpression::Bool { value: false, ty: 1 };
        let ne = compile_infix(s, "!=", &p, &q, &operand).unwrap();
        let dfg = &s.builder.func.dfg;
        let inst = dfg.value_def(ne).unwrap_inst();
        match dfg.insts[inst] {
            InstructionData::IntCompare { cond, .. } => assert_eq!(cond, condcodes::IntCC::NotEqual),
            ref other => panic!("not a comparison: {:?}", other),
        }
    });
}

#[test]
fn compile_infix_returns_an_operand_error() {
    with_types(plan_tcx(), |s| {
        let missing = TypedExpression::Ident("missing".to_string(), 0);
        let one = TypedExpression::Int { value: IntValue::I32(1), ty: 0 };
        let r = compile_infix(s, "-", &missing, &one, &operand);
        assert_eq!(r, Err("undefined variable: missing".to_string()));
        assert_eq!(instruction_count(s), 0);
        let r = compile_infix(s, "-", &one, &missing, &operand);
        assert_eq!(r, Err("undefined variable: missing".to_string()));
        assert_eq!(instruction_count(s), 1);
    });
}

#[test]
fn compile_infix_subtracts_and_compares_names() {
    with_types(plan_tcx(), |s| {
        let x = TypedExpression::Ident("x".to_string(), 0);
        let two = TypedExpression::Int { value: IntValue::I32(2), ty: 0 };
        let d = compile_infix(s, "-", &x, &two, &operand).unwrap();
        let (opcode, args) = instruction_of(s, d);
        assert_eq!(opcode, Opcode::Isub);
        assert_eq!(constant_of(s, args[0]), (types::I32, 40));
        assert_eq!(constant_of(s, args[1]), (types::I32, 2));
        let g = compile_infix(s, ">", &x, &two, &operand).unwrap();
        let dfg = &s.builder.func.dfg;
        match dfg.insts[dfg.value_def(g).unwrap_inst()] {
            InstructionData::IntCompare { cond, .. } => assert_eq!(cond, condcodes::IntCC::SignedGreaterThan),
            ref other => panic!("not a comparison: {:?}", other),
        }
    });
}

#[test]
fn unsupported_operators_have_no_plan() {
    let tcx = plan_tcx();
    let x = TypedExpression::Ident("x".to_string(), 0);
    let y = TypedExpression::Int { value: IntValue::I32(2), ty: 0 };
    assert_eq!(plan_infix("%", &x, &y, &tcx), None);
    let p = TypedExpression::Ident("p".to_string(), 1);
    let q = TypedExpression::Bool { value: true, ty: 1 };
    assert_eq!(plan_infix("<", &p, &q, &tcx), None);
    assert_eq!(plan_infix("+", &x, &q, &tcx), None);
}

#[test]
fn an_unsupported_operator_returns_the_operand_error() {
    with_types(plan_tcx(), |s| {
        let missing = TypedExpression::Ident("missing".to_string(), 0);
        let one = TypedExpression::Int { value: IntValue::I32(1), ty: 0 };
        let r = compile_infix(s, "%", &missing, &one, &operand);
        assert_eq!(r, Err("undefined variable: missing".to_string()));
    });
}
