use ant_compiler::ast::{IntTy, IntValue, Ty, TypeContext, TypedExpression, TypedNode, TypedStatement};
use ant_compiler::driver::{check_program, is_wasm_target, resolve_target_triple, starts_with};

#[test]
fn blank_triple_defaults_to_wasm32() {
    assert_eq!(resolve_target_triple(""), "wasm32-unknown-unknown");
    assert_eq!(resolve_target_triple(" \t\n"), "wasm32-unknown-unknown");
    assert_eq!(resolve_target_triple("\u{3000}"), "wasm32-unknown-unknown");
    assert_eq!(resolve_target_triple("wasm64-unknown-unknown"), "wasm64-unknown-unknown");
    assert_eq!(resolve_target_triple(" x86_64 "), " x86_64 ");
}

#[test]
fn only_wasm_triples_are_accepted() {
    assert!(is_wasm_target("wasm32-unknown-unknown"));
    assert!(is_wasm_target("wasm64-wasi"));
    assert!(is_wasm_target("wasm32"));
    assert!(!is_wasm_target("x86_64-unknown-linux-gnu"));
    assert!(!is_wasm_target("wasm"));
    assert!(!is_wasm_target(" wasm32"));
}

#[test]
fn prefix_test() {
    assert!(starts_with("abc", ""));
    assert!(starts_with("abc", "ab"));
    assert!(!starts_with("ab", "abc"));
    assert!(!starts_with("abc", "b"));
}

#[test]
fn programs_with_unknown_type_ids_are_rejected() {
    let ok = TypedNode::Program {
        statements: vec![TypedStatement::Let {
            name: "x".to_string(),
            value: TypedExpression::Int { value: IntValue::I32(1), ty: 0 },
            ty: 0,
        }],
    };
    let bad = TypedNode::Program {
        statements: vec![TypedStatement::ExpressionStatement(TypedExpression::Call {
            func: Box::new(TypedExpression::Ident("f".to_string(), 0)),
            args: vec![TypedExpression::Int { value: IntValue::I64(7), ty: 1 }],
            ty: 0,
        })],
    };
    let mut tcx = TypeContext::new();
    tcx.push(Ty::IntTy(IntTy::I32));
    assert!(check_program(&ok, tcx.len()));
    assert!(!check_program(&bad, tcx.len()));
    tcx.push(Ty::IntTy(IntTy::I64));
    assert!(check_program(&bad, tcx.len()));
    // A boolean literal's type is never looked up.
    let unread = TypedNode::Program {
        statements: vec![TypedStatement::ExpressionStatement(TypedExpression::BoolAnd {
            left: Box::new(TypedExpression::Bool { value: true, ty: 99 }),
            right: Box::new(TypedExpression::Ident("q".to_string(), 99)),
            ty: 0,
        })],
    };
    assert!(check_program(&unread, tcx.len()));
    // Nor is the type of a typed name outside a function's parameters.
    let hint = TypedNode::Program {
        statements: vec![TypedStatement::ExpressionStatement(TypedExpression::BoolOr {
            left: Box::new(TypedExpression::TypeHint("h".to_string(), 99)),
            right: Box::new(TypedExpression::Bool { value: false, ty: 99 }),
            ty: 0,
        })],
    };
    assert!(check_program(&hint, tcx.len()));
}
