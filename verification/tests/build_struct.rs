use ant_compiler::ast::{IntTy, IntValue, Ty, TypeContext, TypedExpression};
use ant_compiler::build_struct::{
    compile_build_struct, get_or_build_struct_layout, platform_width_to_int_type, struct_field_types,
};
use ant_compiler::clif::ClifInt;
use ant_compiler::compile_state::{FunctionState, PushGetGeneric, StructLayout, SymbolTy};
use ant_compiler::generic::GenericInfo;
use cranelift::codegen::ir::{Function, Inst, InstructionData, Opcode};
use cranelift::prelude::{types, FunctionBuilder, FunctionBuilderContext, Value};
use indexmap::IndexMap;

fn types_i32_bool() -> TypeContext {
    let mut t = TypeContext::new();
    t.push(Ty::IntTy(IntTy::I32));
    t.push(Ty::Bool);
    t
}

fn with_state(f: impl FnOnce(&mut FunctionState<'_>)) {
    let mut func = Function::new();
    let mut ctx = FunctionBuilderContext::new();
    let mut b = FunctionBuilder::new(&mut func, &mut ctx);
    let block = b.create_block();
    b.switch_to_block(block);
    let mut state = FunctionState::new(b, types_i32_bool());
    f(&mut state);
}

fn lit_i32(n: i32) -> TypedExpression {
    TypedExpression::Int { value: IntValue::I32(n), ty: 0 }
}

fn point_fields(first: &str, second: &str) -> IndexMap<String, TypedExpression> {
    let mut m = IndexMap::new();
    m.insert(first.to_string(), lit_i32(1));
    m.insert(second.to_string(), lit_i32(2));
    m
}

fn point_layout() -> StructLayout {
    StructLayout {
        size: 16,
        fields: vec![("x".to_string(), Ty::IntTy(IntTy::I32)), ("y".to_string(), Ty::IntTy(IntTy::I32))],
        offsets: vec![0, 8],
    }
}

/// Lays the fields out one after another, 8 bytes each.
fn eight_bytes_each(_: &mut FunctionState<'_>, _: &str, fs: &[(String, Ty)]) -> Result<StructLayout, String> {
    Ok(StructLayout {
        size: 8 * fs.len() as u32,
        fields: fs.to_vec(),
        offsets: (0..fs.len() as u32).map(|i| 8 * i).collect(),
    })
}

fn no_layout(_: &mut FunctionState<'_>, _: &str, _: &[(String, Ty)]) -> Result<StructLayout, String> {
    panic!("only generic structs are laid out")
}

/// Stands for the allocator: the struct's address is the constant 4096.
fn allocate(s: &mut FunctionState<'_>, _size: Value) -> Value {
    s.emit_iconst(ClifInt::I64, 4096)
}

fn expr(s: &mut FunctionState<'_>, e: &TypedExpression) -> Result<Value, String> {
    match e {
        TypedExpression::Int { value: IntValue::I32(n), .. } => Ok(s.emit_iconst(ClifInt::I32, *n as i64)),
        TypedExpression::Ident(name, _) => Err(format!("undefined variable: {name}")),
        _ => Err("unsupported".to_string()),
    }
}

fn constant(s: &FunctionState<'_>, v: Value) -> i64 {
    let dfg = &s.builder.func.dfg;
    match dfg.insts[dfg.value_def(v).unwrap_inst()] {
        InstructionData::UnaryImm { imm, .. } => imm.bits(),
        ref other => panic!("not a constant: {:?}", other),
    }
}

/// The instructions of the function, in layout order.
fn instructions(s: &FunctionState<'_>) -> Vec<Inst> {
    let layout = &s.builder.func.layout;
    layout.blocks().flat_map(|b| layout.block_insts(b)).collect()
}

/// Each store of the function: the constant stored and the address, as
/// (base constant, offset added to it).
fn stores(s: &FunctionState<'_>) -> Vec<(i64, (i64, i64))> {
    let dfg = &s.builder.func.dfg;
    let mut out = Vec::new();
    for inst in instructions(s) {
        if let InstructionData::Store { opcode: Opcode::Store, args, offset, .. } = dfg.insts[inst] {
            assert_eq!(i32::from(offset), 0);
            let addr = args[1];
            let place = match dfg.insts[dfg.value_def(addr).unwrap_inst()] {
                InstructionData::BinaryImm64 { opcode: Opcode::IaddImm, arg, imm } => (constant(s, arg), imm.bits()),
                _ => (constant(s, addr), 0),
            };
            out.push((constant(s, args[0]), place));
        }
    }
    out
}

#[test]
fn fields_are_stored_at_their_offsets_in_map_order() {
    with_state(|s| {
        s.define_struct_type("Point", point_layout());
        let p = compile_build_struct(s, "Point", &point_fields("y", "x"), &no_layout, &allocate, &expr).unwrap();
        assert_eq!(constant(s, p), 4096);
        assert_eq!(stores(s), vec![(1, (4096, 8)), (2, (4096, 0))]);
    });
}

#[test]
fn the_allocation_size_is_a_pointer_wide_constant() {
    with_state(|s| {
        s.define_struct_type("Point", point_layout());
        compile_build_struct(s, "Point", &point_fields("x", "y"), &no_layout, &allocate, &expr).unwrap();
        let dfg = &s.builder.func.dfg;
        let first = instructions(s)[0];
        let size = dfg.first_result(first);
        assert_eq!(dfg.value_type(size), types::I64);
        assert_eq!(constant(s, size), 16);
        assert_eq!(stores(s), vec![(1, (4096, 0)), (2, (4096, 8))]);
    });
}

#[test]
fn building_an_undefined_struct_is_an_error() {
    with_state(|s| {
        let r = compile_build_struct(s, "Point", &point_fields("x", "y"), &no_layout, &allocate, &expr);
        assert_eq!(r, Err("undefined struct: Point".to_string()));
        assert_eq!(s.builder.func.dfg.num_insts(), 0);
    });
}

#[test]
fn building_a_variable_is_an_error() {
    with_state(|s| {
        s.define_variable("Point", Ty::Bool);
        let r = compile_build_struct(s, "Point", &point_fields("x", "y"), &no_layout, &allocate, &expr);
        assert_eq!(r, Err("not a struct: Point".to_string()));
    });
}

#[test]
fn a_field_error_is_returned() {
    with_state(|s| {
        s.define_struct_type("Point", point_layout());
        let mut fields = IndexMap::new();
        fields.insert("x".to_string(), lit_i32(1));
        fields.insert("y".to_string(), TypedExpression::Ident("q".to_string(), 0));
        let r = compile_build_struct(s, "Point", &fields, &no_layout, &allocate, &expr);
        assert_eq!(r, Err("undefined variable: q".to_string()));
        assert_eq!(stores(s), vec![(1, (4096, 0))]);
    });
}

#[test]
fn a_generic_struct_is_laid_out_and_defined() {
    with_state(|s| {
        s.push_generic(
            "Pair".to_string(),
            GenericInfo::Struct { generic_params: vec!["T".to_string()], generic_fields: IndexMap::new() },
        );
        let mut fields = IndexMap::new();
        fields.insert("a".to_string(), lit_i32(5));
        fields.insert("b".to_string(), TypedExpression::Bool { value: true, ty: 1 });
        let layout = get_or_build_struct_layout(s, "Pair", &fields, &eight_bytes_each).unwrap();
        assert_eq!(layout.size, 16);
        assert_eq!(layout.fields, vec![("a".to_string(), Ty::IntTy(IntTy::I32)), ("b".to_string(), Ty::Bool)]);
        assert_eq!(layout.offsets, vec![0, 8]);
        match s.lookup("Pair") {
            Some(SymbolTy::Struct(defined)) => {
                assert_eq!(defined.size, 16);
                assert_eq!(defined.offsets, vec![0, 8]);
            },
            _ => panic!("Pair is not defined as a struct"),
        }
    });
}

#[test]
fn a_generic_struct_is_built_with_its_new_layout() {
    with_state(|s| {
        s.push_generic(
            "Pair".to_string(),
            GenericInfo::Struct { generic_params: vec!["T".to_string()], generic_fields: IndexMap::new() },
        );
        let mut fields = IndexMap::new();
        fields.insert("a".to_string(), lit_i32(5));
        fields.insert("b".to_string(), lit_i32(6));
        let p = compile_build_struct(s, "Pair", &fields, &eight_bytes_each, &allocate, &expr).unwrap();
        assert_eq!(constant(s, p), 4096);
        assert_eq!(stores(s), vec![(5, (4096, 0)), (6, (4096, 8))]);
    });
}

#[test]
fn a_known_struct_layout_is_looked_up() {
    with_state(|s| {
        s.define_struct_type("Point", point_layout());
        let layout = get_or_build_struct_layout(s, "Point", &point_fields("x", "y"), &no_layout).unwrap();
        assert_eq!(layout.size, 16);
        assert_eq!(layout.offsets, vec![0, 8]);
    });
}

#[test]
fn field_types_follow_the_field_map() {
    let tcx = types_i32_bool();
    let mut fields = IndexMap::new();
    fields.insert("flag".to_string(), TypedExpression::Bool { value: false, ty: 1 });
    fields.insert("n".to_string(), lit_i32(3));
    let v = struct_field_types(&tcx, &fields);
    assert_eq!(v, vec![("flag".to_string(), Ty::Bool), ("n".to_string(), Ty::IntTy(IntTy::I32))]);
}

#[test]
fn pointers_are_as_wide_as_usize() {
    let expected = if usize::BITS == 64 { ClifInt::I64 } else { ClifInt::I32 };
    assert_eq!(platform_width_to_int_type(), expected);
}

fn failing_layout(_: &mut FunctionState<'_>, name: &str, _: &[(String, Ty)]) -> Result<StructLayout, String> {
    Err(format!("cannot lay out {name}"))
}

#[test]
fn a_generic_layout_error_is_returned_with_nothing_emitted() {
    with_state(|s| {
        s.push_generic(
            "Pair".to_string(),
            GenericInfo::Struct { generic_params: vec!["T".to_string()], generic_fields: IndexMap::new() },
        );
        let r = compile_build_struct(s, "Pair", &point_fields("a", "b"), &failing_layout, &allocate, &expr);
        assert_eq!(r, Err("cannot lay out Pair".to_string()));
        assert_eq!(s.builder.func.dfg.num_insts(), 0);
        assert!(s.lookup("Pair").is_none());
    });
}
