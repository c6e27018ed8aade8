use ant_compiler::ast::{Ty, TypeContext, TypedExpression};
use ant_compiler::compile_state::{lookup_struct_layout, FunctionState, PushGetGeneric, StructLayout, SymbolTy};
use ant_compiler::generic::{CompiledGenericInfo, GenericInfo};
use cranelift::codegen::ir::Function;
use cranelift::prelude::{FunctionBuilder, FunctionBuilderContext};
use indexmap::IndexMap;

fn layout(size: u32) -> StructLayout {
    StructLayout { size, fields: vec![("x".to_string(), Ty::Bool)], offsets: vec![0] }
}

fn struct_size(sym: Option<&SymbolTy>) -> Option<u32> {
    match sym {
        Some(SymbolTy::Struct(l)) => Some(l.size),
        _ => None,
    }
}

#[test]
fn enter_then_leave_returns_the_new_empty_scope() {
    let mut func = Function::new();
    let mut ctx = FunctionBuilderContext::new();
    let mut state = FunctionState::new(FunctionBuilder::new(&mut func, &mut ctx), TypeContext::new());
    state.define_struct_type("Outer", layout(8));
    state.enter_scope();
    let left = state.leave_scope().expect("an inner scope can be left");
    assert!(left.get_local("Outer").is_none());
    assert_eq!(struct_size(state.lookup("Outer")), Some(8));
}

#[test]
fn outermost_scope_cannot_be_left() {
    let mut func = Function::new();
    let mut ctx = FunctionBuilderContext::new();
    let mut state = FunctionState::new(FunctionBuilder::new(&mut func, &mut ctx), TypeContext::new());
    state.define_struct_type("S", layout(4));
    assert!(state.leave_scope().is_none());
    assert_eq!(struct_size(state.lookup("S")), Some(4));
}

#[test]
fn inner_definition_shadows_outer_until_scope_is_left() {
    let mut func = Function::new();
    let mut ctx = FunctionBuilderContext::new();
    let mut state = FunctionState::new(FunctionBuilder::new(&mut func, &mut ctx), TypeContext::new());
    state.define_struct_type("P", layout(16));
    state.define_struct_type("Q", layout(2));
    state.enter_scope();
    state.define_struct_type("P", layout(24));
    assert_eq!(struct_size(state.lookup("P")), Some(24));
    assert_eq!(struct_size(state.lookup("Q")), Some(2));
    let inner = state.leave_scope().unwrap();
    assert_eq!(struct_size(inner.get_local("P")), Some(24));
    assert_eq!(struct_size(state.lookup("P")), Some(16));
    assert!(state.lookup("R").is_none());
}

#[test]
fn variables_are_not_structs() {
    let mut func = Function::new();
    let mut ctx = FunctionBuilderContext::new();
    let mut state = FunctionState::new(FunctionBuilder::new(&mut func, &mut ctx), TypeContext::new());
    state.enter_scope();
    let mut table = state.leave_scope().unwrap();
    table.define_variable("v", Ty::Bool);
    assert!(matches!(table.get_local("v"), Some(SymbolTy::Variable(Ty::Bool))));
}

fn struct_generic(params: &[&str]) -> GenericInfo {
    let mut fields = IndexMap::new();
    fields.insert("value".to_string(), params[0].to_string());
    GenericInfo::Struct { generic_params: params.iter().map(|s| s.to_string()).collect(), generic_fields: fields }
}

#[test]
fn generic_definitions_are_found_by_name() {
    let mut func = Function::new();
    let mut ctx = FunctionBuilderContext::new();
    let mut state = FunctionState::new(FunctionBuilder::new(&mut func, &mut ctx), TypeContext::new());
    assert!(state.get_generic("Box").is_none());
    state.push_generic("Box".to_string(), struct_generic(&["T"]));
    state.push_generic("Pair".to_string(), struct_generic(&["K", "V"]));
    assert_eq!(state.get_generic("Box"), Some(&struct_generic(&["T"])));
    state.push_generic("Box".to_string(), struct_generic(&["U"]));
    assert_eq!(state.get_generic("Box"), Some(&struct_generic(&["U"])));
    assert_eq!(state.get_generic("Pair"), Some(&struct_generic(&["K", "V"])));
}

#[test]
fn generic_function_definition_keeps_its_body() {
    let mut func = Function::new();
    let mut ctx = FunctionBuilderContext::new();
    let mut state = FunctionState::new(FunctionBuilder::new(&mut func, &mut ctx), TypeContext::new());
    let info = GenericInfo::Function {
        generic: vec!["T".to_string()],
        generic_params: IndexMap::new(),
        all_params: IndexMap::new(),
        block: Box::new(TypedExpression::Block(vec![], 0)),
        ret_ty: 0,
    };
    state.push_generic("id".to_string(), info);
    match state.get_generic("id") {
        Some(GenericInfo::Function { block, .. }) => assert_eq!(**block, TypedExpression::Block(vec![], 0)),
        other => panic!("unexpected {:?}", other),
    }
}

fn compiled(name: &str) -> CompiledGenericInfo {
    CompiledGenericInfo::Function { new_name: name.to_string(), new_params: IndexMap::new(), new_ret_ty: 0 }
}

#[test]
fn compiled_instances_pop_in_place() {
    let mut func = Function::new();
    let mut ctx = FunctionBuilderContext::new();
    let mut state = FunctionState::new(FunctionBuilder::new(&mut func, &mut ctx), TypeContext::new());
    state.push_compiled_generic("id__i32".to_string(), compiled("id_i32"));
    state.push_compiled_generic("id__i64".to_string(), compiled("id_i64"));
    assert_eq!(state.pop_compiled_generic("id__i32"), Some(compiled("id_i32")));
    assert_eq!(state.pop_compiled_generic("id__i32"), None);
    assert_eq!(state.pop_compiled_generic("id__i64"), Some(compiled("id_i64")));
    assert_eq!(state.pop_compiled_generic("missing"), None);
}

#[test]
fn generic_definitions_can_be_edited_in_place() {
    let mut func = Function::new();
    let mut ctx = FunctionBuilderContext::new();
    let mut state = FunctionState::new(FunctionBuilder::new(&mut func, &mut ctx), TypeContext::new());
    state.push_generic("A".to_string(), struct_generic(&["T"]));
    state.push_generic("B".to_string(), struct_generic(&["U"]));
    assert!(state.get_mut_generic("C").is_none());
    if let Some(GenericInfo::Struct { generic_params, .. }) = state.get_mut_generic("A") {
        generic_params.push("V".to_string());
    } else {
        panic!("A is a struct");
    }
    let mut expected = struct_generic(&["T"]);
    if let GenericInfo::Struct { generic_params, .. } = &mut expected {
        generic_params.push("V".to_string());
    }
    assert_eq!(state.get_generic("A"), Some(&expected));
    assert_eq!(state.get_generic("B"), Some(&struct_generic(&["U"])));
}

#[test]
fn struct_layouts_are_looked_up_through_scopes() {
    let mut func = Function::new();
    let mut ctx = FunctionBuilderContext::new();
    let mut state = FunctionState::new(FunctionBuilder::new(&mut func, &mut ctx), TypeContext::new());
    state.define_struct_type("Point", layout(8));
    state.enter_scope();
    assert_eq!(lookup_struct_layout(&state, "Point").map(|l| l.size), Ok(8));
    assert_eq!(lookup_struct_layout(&state, "Line").map(|l| l.size), Err("undefined struct: Line".to_string()));
    state.enter_scope();
    let mut table = state.leave_scope().unwrap();
    table.define_variable("p", Ty::Bool);
    assert!(table.get_local("Point").is_none());
}

#[test]
fn variables_are_reported_as_not_structs() {
    let mut func = Function::new();
    let mut ctx = FunctionBuilderContext::new();
    let mut state = FunctionState::new(FunctionBuilder::new(&mut func, &mut ctx), TypeContext::new());
    state.define_struct_type("x", layout(4));
    state.enter_scope();
    state.define_variable("x", Ty::Bool);
    assert_eq!(lookup_struct_layout(&state, "x").map(|l| l.size), Err("not a struct: x".to_string()));
    state.leave_scope();
    assert_eq!(lookup_struct_layout(&state, "x").map(|l| l.size), Ok(4));
}

#[test]
fn field_offsets_follow_field_order() {
    let l = StructLayout {
        size: 16,
        fields: vec![("a".to_string(), Ty::Bool), ("b".to_string(), Ty::Unit), ("a".to_string(), Ty::Str)],
        offsets: vec![0, 8, 12],
    };
    assert_eq!(l.field_offset("a"), 0);
    assert_eq!(l.field_offset("b"), 8);
}

#[test]
fn leaving_as_many_scopes_as_were_entered_restores_the_chain() {
    let mut func = Function::new();
    let mut ctx = FunctionBuilderContext::new();
    let mut state = FunctionState::new(FunctionBuilder::new(&mut func, &mut ctx), TypeContext::new());
    state.define_struct_type("S", layout(4));
    for size in [8, 12, 16] {
        state.enter_scope();
        state.define_struct_type("S", layout(size));
    }
    assert_eq!(struct_size(state.lookup("S")), Some(16));
    for _ in 0..3 {
        assert!(state.leave_scope().is_some());
    }
    assert_eq!(struct_size(state.lookup("S")), Some(4));
    assert!(state.leave_scope().is_none());
}

#[test]
fn a_popped_instance_has_no_entry_left() {
    let mut func = Function::new();
    let mut ctx = FunctionBuilderContext::new();
    let mut state = FunctionState::new(FunctionBuilder::new(&mut func, &mut ctx), TypeContext::new());
    state.push_compiled_generic("id__i32".to_string(), compiled("first"));
    state.push_compiled_generic("id__i32".to_string(), compiled("second"));
    assert_eq!(state.pop_compiled_generic("id__i32"), Some(compiled("second")));
    assert_eq!(state.pop_compiled_generic("id__i32"), None);
}
