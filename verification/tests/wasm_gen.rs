use ant_compiler::ast::{IntTy, IntValue, Ty, TypeContext, TypedExpression, TypedNode, TypedStatement};
use ant_compiler::wasm_gen::compile_to_wasm;
use wasmparser::{Parser, Payload, ValType};

/// Type ids of the test type context.
const I32: usize = 0;
const UNIT: usize = 1;
const BOOL: usize = 2;
const I64: usize = 3;
const FUNC: usize = 4;

fn tcx() -> TypeContext {
    let mut t = TypeContext::new();
    t.push(Ty::IntTy(IntTy::I32));
    t.push(Ty::Unit);
    t.push(Ty::Bool);
    t.push(Ty::IntTy(IntTy::I64));
    t.push(Ty::Function);
    t
}

fn lit(v: i32) -> TypedExpression {
    TypedExpression::Int { value: IntValue::I32(v), ty: I32 }
}

fn ident(name: &str, ty: usize) -> TypedExpression {
    TypedExpression::Ident(name.to_string(), ty)
}

fn infix(l: TypedExpression, op: &str, r: TypedExpression, ty: usize) -> TypedExpression {
    TypedExpression::Infix { left: Box::new(l), op: op.to_string(), right: Box::new(r), ty }
}

fn call(name: &str, args: Vec<TypedExpression>, ty: usize) -> TypedExpression {
    TypedExpression::Call { func: Box::new(ident(name, FUNC)), args, ty }
}

fn expr_stmt(e: TypedExpression) -> TypedStatement {
    TypedStatement::ExpressionStatement(e)
}

fn block(stmts: Vec<TypedStatement>, ty: usize) -> TypedExpression {
    TypedExpression::Block(stmts, ty)
}

fn function(name: &str, params: Vec<(&str, usize)>, body: TypedExpression) -> TypedStatement {
    expr_stmt(TypedExpression::Function {
        name: Some(name.to_string()),
        params: params.into_iter().map(|(n, t)| TypedExpression::TypeHint(n.to_string(), t)).collect(),
        block: Box::new(body),
        ty: FUNC,
    })
}

fn program(stmts: Vec<TypedStatement>) -> TypedNode {
    TypedNode::Program { statements: stmts }
}

struct Decoded {
    func_types: Vec<u32>,
    exports: Vec<(String, u32)>,
    bodies: Vec<(Vec<(u32, ValType)>, Vec<String>)>,
}

fn decode(bytes: &[u8]) -> Decoded {
    let mut d = Decoded { func_types: vec![], exports: vec![], bodies: vec![] };
    for payload in Parser::new(0).parse_all(bytes) {
        match payload.unwrap() {
            Payload::FunctionSection(r) => {
                for t in r {
                    d.func_types.push(t.unwrap());
                }
            }
            Payload::ExportSection(r) => {
                for e in r {
                    let e = e.unwrap();
                    d.exports.push((e.name.to_string(), e.index));
                }
            }
            Payload::CodeSectionEntry(body) => {
                let locals = body.get_locals_reader().unwrap().into_iter().map(|l| l.unwrap()).collect();
                let ops = body
                    .get_operators_reader()
                    .unwrap()
                    .into_iter()
                    .map(|o| format!("{:?}", o.unwrap()))
                    .collect();
                d.bodies.push((locals, ops));
            }
            _ => {}
        }
    }
    d
}

fn ops(v: &[&str]) -> Vec<String> {
    v.iter().map(|s| s.to_string()).collect()
}

#[test]
fn empty_program_is_header_and_sections() {
    let bytes = compile_to_wasm(&program(vec![]), tcx()).unwrap();
    let expected: Vec<u8> = vec![
        0x00, 0x61, 0x73, 0x6d, 0x01, 0x00, 0x00, 0x00, // header
        0x01, 0x01, 0x00, // type section, no types
        0x03, 0x01, 0x00, // function section, no functions
        0x05, 0x05, 0x01, 0x01, 0x01, 0x80, 0x02, // one memory, 1 to 256 pages
        0x06, 0x07, 0x01, 0x7f, 0x01, 0x41, 0x80, 0x08, 0x0b, // mutable i32 global = 1024
        0x07, 0x01, 0x00, // no exports
        0x0a, 0x01, 0x00, // no code
    ];
    assert_eq!(bytes, expected);
    wasmparser::validate(&bytes).unwrap();
}

#[test]
fn function_returning_sum_of_constants() {
    let main = function("main", vec![], block(vec![expr_stmt(infix(lit(1), "+", lit(2), I32))], I32));
    let bytes = compile_to_wasm(&program(vec![main]), tcx()).unwrap();
    wasmparser::validate(&bytes).unwrap();
    let d = decode(&bytes);
    assert_eq!(d.exports, vec![("main".to_string(), 0)]);
    assert_eq!(d.bodies.len(), 1);
    assert!(d.bodies[0].0.is_empty());
    assert_eq!(
        d.bodies[0].1,
        ops(&["I32Const { value: 1 }", "I32Const { value: 2 }", "I32Add", "Return", "End"])
    );
}

#[test]
fn let_bindings_get_local_slots_after_parameters() {
    // fn f(x: i32) -> i32 { let y = x; y }
    let body = block(
        vec![
            TypedStatement::Let { name: "y".to_string(), value: ident("x", I32), ty: I32 },
            expr_stmt(ident("y", I32)),
        ],
        I32,
    );
    let bytes = compile_to_wasm(&program(vec![function("f", vec![("x", I32)], body)]), tcx()).unwrap();
    wasmparser::validate(&bytes).unwrap();
    let d = decode(&bytes);
    assert_eq!(d.bodies[0].0, vec![(1, ValType::I32)]);
    assert_eq!(
        d.bodies[0].1,
        ops(&[
            "LocalGet { local_index: 0 }",
            "LocalSet { local_index: 1 }",
            "LocalGet { local_index: 1 }",
            "Return",
            "End"
        ])
    );
}

#[test]
fn locals_of_the_same_type_are_grouped() {
    // fn g() { let a: i32 = 1; let b: i32 = 2; let c: i64 = 3; let d: i32 = 4; }
    let i64c = TypedExpression::Int { value: IntValue::I64(3), ty: I64 };
    let body = block(
        vec![
            TypedStatement::Let { name: "a".to_string(), value: lit(1), ty: I32 },
            TypedStatement::Let { name: "b".to_string(), value: lit(2), ty: I32 },
            TypedStatement::Let { name: "c".to_string(), value: i64c, ty: I64 },
            TypedStatement::Let { name: "d".to_string(), value: lit(4), ty: I32 },
        ],
        UNIT,
    );
    let bytes = compile_to_wasm(&program(vec![function("g", vec![], body)]), tcx()).unwrap();
    wasmparser::validate(&bytes).unwrap();
    let d = decode(&bytes);
    assert_eq!(d.bodies[0].0, vec![(2, ValType::I32), (1, ValType::I64), (1, ValType::I32)]);
    assert_eq!(
        d.bodies[0].1,
        ops(&[
            "I32Const { value: 1 }",
            "LocalSet { local_index: 0 }",
            "I32Const { value: 2 }",
            "LocalSet { local_index: 1 }",
            "I64Const { value: 3 }",
            "LocalSet { local_index: 2 }",
            "I32Const { value: 4 }",
            "LocalSet { local_index: 3 }",
            "Return",
            "End"
        ])
    );
}

#[test]
fn missing_tail_expression_returns_zero_of_result_type() {
    // fn h() -> i64 { let a: i64 = 7; }
    let body = block(
        vec![TypedStatement::Let {
            name: "a".to_string(),
            value: TypedExpression::Int { value: IntValue::I64(7), ty: I64 },
            ty: I64,
        }],
        I64,
    );
    let bytes = compile_to_wasm(&program(vec![function("h", vec![], body)]), tcx()).unwrap();
    wasmparser::validate(&bytes).unwrap();
    let d = decode(&bytes);
    assert_eq!(
        d.bodies[0].1,
        ops(&["I64Const { value: 7 }", "LocalSet { local_index: 0 }", "I64Const { value: 0 }", "Return", "End"])
    );
}

#[test]
fn while_loop_shape() {
    // fn w() { while true { } }
    let body = block(
        vec![TypedStatement::While {
            condition: TypedExpression::Bool { value: true, ty: BOOL },
            block: Box::new(TypedStatement::Block { statements: vec![] }),
        }],
        UNIT,
    );
    let bytes = compile_to_wasm(&program(vec![function("w", vec![], body)]), tcx()).unwrap();
    wasmparser::validate(&bytes).unwrap();
    let d = decode(&bytes);
    assert_eq!(
        d.bodies[0].1,
        ops(&[
            "Loop { blockty: Empty }",
            "Loop { blockty: Empty }",
            "I32Const { value: 1 }",
            "I32Const { value: 0 }",
            "I32Eq",
            "BrIf { relative_depth: 1 }",
            "Br { relative_depth: 0 }",
            "End",
            "End",
            "Return",
            "End"
        ])
    );
}

#[test]
fn if_else_is_a_value_of_the_consequence_type() {
    // fn pick(c: bool) -> i32 { if c { 1 } else { 2 } }
    let cond = TypedExpression::If {
        condition: Box::new(ident("c", BOOL)),
        consequence: Box::new(lit(1)),
        else_block: Some(Box::new(lit(2))),
        ty: I32,
    };
    let body = block(vec![expr_stmt(cond)], I32);
    let bytes = compile_to_wasm(&program(vec![function("pick", vec![("c", BOOL)], body)]), tcx()).unwrap();
    wasmparser::validate(&bytes).unwrap();
    let d = decode(&bytes);
    assert_eq!(
        d.bodies[0].1,
        ops(&[
            "LocalGet { local_index: 0 }",
            "If { blockty: Type(I32) }",
            "I32Const { value: 1 }",
            "Else",
            "I32Const { value: 2 }",
            "End",
            "Return",
            "End"
        ])
    );
}

#[test]
fn if_without_else_has_no_result() {
    // fn maybe(c: bool) { if c { 1 } }
    let cond = TypedExpression::If {
        condition: Box::new(ident("c", BOOL)),
        consequence: Box::new(lit(1)),
        else_block: None,
        ty: UNIT,
    };
    let body = block(vec![expr_stmt(cond)], UNIT);
    let bytes = compile_to_wasm(&program(vec![function("maybe", vec![("c", BOOL)], body)]), tcx()).unwrap();
    let d = decode(&bytes);
    assert_eq!(
        d.bodies[0].1,
        ops(&["LocalGet { local_index: 0 }", "If { blockty: Empty }", "I32Const { value: 1 }", "End", "Return", "End"])
    );
}

#[test]
fn calls_resolve_to_earlier_and_recursive_functions() {
    // fn one() -> i32 { 1 }  fn two(n: i32) -> i32 { one() + two(n) }
    let one = function("one", vec![], block(vec![expr_stmt(lit(1))], I32));
    let two = function(
        "two",
        vec![("n", I32)],
        block(vec![expr_stmt(infix(call("one", vec![], I32), "+", call("two", vec![ident("n", I32)], I32), I32))], I32),
    );
    let bytes = compile_to_wasm(&program(vec![one, two]), tcx()).unwrap();
    wasmparser::validate(&bytes).unwrap();
    let d = decode(&bytes);
    assert_eq!(d.exports, vec![("one".to_string(), 0), ("two".to_string(), 1)]);
    assert_eq!(
        d.bodies[1].1,
        ops(&[
            "Call { function_index: 0 }",
            "LocalGet { local_index: 0 }",
            "Call { function_index: 1 }",
            "I32Add",
            "Return",
            "End"
        ])
    );
}

#[test]
fn printf_drops_its_arguments_and_yields_zero() {
    let main = function("main", vec![], block(vec![expr_stmt(call("printf", vec![lit(5), lit(6)], I32))], I32));
    let bytes = compile_to_wasm(&program(vec![main]), tcx()).unwrap();
    wasmparser::validate(&bytes).unwrap();
    let d = decode(&bytes);
    assert_eq!(
        d.bodies[0].1,
        ops(&[
            "I32Const { value: 5 }",
            "I32Const { value: 6 }",
            "Drop",
            "Drop",
            "I32Const { value: 0 }",
            "Return",
            "End"
        ])
    );
}

#[test]
fn unknown_function_is_an_error() {
    let main = function("main", vec![], block(vec![expr_stmt(call("missing", vec![], I32))], I32));
    let r = compile_to_wasm(&program(vec![main]), tcx());
    assert_eq!(r, Err("Unknown function: missing".to_string()));
}

#[test]
fn unsupported_operator_is_an_error() {
    let main = function("main", vec![], block(vec![expr_stmt(infix(lit(7), "%", lit(2), I32))], I32));
    let r = compile_to_wasm(&program(vec![main]), tcx());
    assert_eq!(r, Err("Unsupported binary operator: %".to_string()));
}

#[test]
fn comparisons_and_logic_on_i64_and_bool() {
    // fn cmp(a: i64, b: i64) -> bool { a <= b && a != b }
    let le = infix(ident("a", I64), "<=", ident("b", I64), BOOL);
    let ne = infix(ident("a", I64), "!=", ident("b", I64), BOOL);
    let and = TypedExpression::BoolAnd { left: Box::new(le), right: Box::new(ne), ty: BOOL };
    let body = block(vec![expr_stmt(and)], BOOL);
    let bytes = compile_to_wasm(&program(vec![function("cmp", vec![("a", I64), ("b", I64)], body)]), tcx()).unwrap();
    wasmparser::validate(&bytes).unwrap();
    let d = decode(&bytes);
    assert_eq!(
        d.bodies[0].1,
        ops(&[
            "LocalGet { local_index: 0 }",
            "LocalGet { local_index: 1 }",
            "I64LeS",
            "LocalGet { local_index: 0 }",
            "LocalGet { local_index: 1 }",
            "I64Ne",
            "I32And",
            "Return",
            "End"
        ])
    );
}

#[test]
fn earlier_statement_values_of_non_i32_type_are_dropped() {
    // fn d() { 5i64; 6i64 }: the last statement of a block leaves its value;
    // an earlier one is dropped when it is not 32-bit.
    let body = block(
        vec![
            expr_stmt(TypedExpression::Int { value: IntValue::I64(5), ty: I64 }),
            expr_stmt(TypedExpression::Int { value: IntValue::I64(6), ty: I64 }),
        ],
        UNIT,
    );
    let bytes = compile_to_wasm(&program(vec![function("d", vec![], body)]), tcx()).unwrap();
    let d = decode(&bytes);
    assert_eq!(
        d.bodies[0].1,
        ops(&["I64Const { value: 5 }", "Drop", "I64Const { value: 6 }", "Return", "End"])
    );
}

#[test]
fn unbound_names_and_other_expressions_read_as_zero() {
    let s = TypedExpression::Str { value: "hi".to_string(), ty: I32 };
    let body = block(vec![expr_stmt(ident("nowhere", I32)), expr_stmt(s)], I32);
    let bytes = compile_to_wasm(&program(vec![function("z", vec![], body)]), tcx()).unwrap();
    let d = decode(&bytes);
    assert_eq!(
        d.bodies[0].1,
        ops(&["I32Const { value: 0 }", "I32Const { value: 0 }", "Return", "End"])
    );
}

#[test]
fn types_that_are_never_read_need_not_be_known() {
    // Boolean literals and names carry type ids that code generation never
    // looks up; an unknown id there does not stop compilation.
    let unknown = 999;
    let both = TypedExpression::BoolAnd {
        left: Box::new(TypedExpression::Bool { value: true, ty: unknown }),
        right: Box::new(ident("nowhere", unknown)),
        ty: I32,
    };
    let body = block(vec![expr_stmt(both)], I32);
    let bytes = compile_to_wasm(&program(vec![function("t", vec![], body)]), tcx()).unwrap();
    let d = decode(&bytes);
    assert_eq!(
        d.bodies[0].1,
        ops(&["I32Const { value: 1 }", "I32Const { value: 0 }", "I32And", "Return", "End"])
    );
}

#[test]
fn each_function_has_the_type_of_its_own_index() {
    let f = function("f", vec![], block(vec![expr_stmt(lit(1))], I32));
    let g = function("g", vec![("a", I32)], block(vec![expr_stmt(ident("a", I32))], I32));
    let h = function("h", vec![("a", I32), ("b", I32)], block(vec![expr_stmt(lit(2))], I32));
    let bytes = compile_to_wasm(&program(vec![f, g, h]), tcx()).unwrap();
    assert_eq!(decode(&bytes).func_types, vec![0, 1, 2]);
}
