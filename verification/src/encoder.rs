//! The boundary to the `wasm-encoder` crate: its section and function
//! builders, declared as opaque types, with what each call that code
//! generation makes does to their contents.
use vstd::prelude::*;
use crate::wasm::{
    body_cost, seq_cost, type_entry_cost, export_entry_cost, code_entry_cost, u32_limit, wasm_header,
    BinOp, BlockResult, CtrlInstr, ExportDef, FuncBody, FuncSig, GlobalDef, Instr, MemoryDef, NumInstr,
    SectionContent, VarInstr, WasmType,
};
use wasm_encoder::{
    CodeSection, ConstExpr, ExportKind, ExportSection, Function, FunctionSection, GlobalSection,
    GlobalType, Instruction, MemorySection, MemoryType, Module, TypeSection, ValType,
};

verus! {

#[verifier::external_type_specification]
#[verifier::external_body]
pub struct ExTypeSection(TypeSection);

#[verifier::external_type_specification]
#[verifier::external_body]
pub struct ExFunctionSection(FunctionSection);

#[verifier::external_type_specification]
#[verifier::external_body]
pub struct ExCodeSection(CodeSection);

#[verifier::external_type_specification]
#[verifier::external_body]
pub struct ExGlobalSection(GlobalSection);

#[verifier::external_type_specification]
#[verifier::external_body]
pub struct ExExportSection(ExportSection);

#[verifier::external_type_specification]
#[verifier::external_body]
pub struct ExMemorySection(MemorySection);

#[verifier::external_type_specification]
#[verifier::external_body]
pub struct ExFunction(Function);

#[verifier::external_type_specification]
#[verifier::external_body]
pub struct ExModule(Module);

#[verifier::external_type_specification]
#[verifier::external_body]
pub struct ExValType(ValType);

#[verifier::external_type_specification]
#[verifier::external_body]
pub struct ExInstruction<'a>(Instruction<'a>);

#[verifier::external_type_specification]
#[verifier::external_body]
pub struct ExBlockType(wasm_encoder::BlockType);

/// The function types added to a type section, in order.
pub uninterp spec fn type_section_entries(s: TypeSection) -> Seq<FuncSig>;

/// The type indices added to a function section, in order.
pub uninterp spec fn function_section_entries(s: FunctionSection) -> Seq<u32>;

/// The function bodies added to a code section, in order.
pub uninterp spec fn code_section_entries(s: CodeSection) -> Seq<FuncBody>;

/// The globals added to a global section, in order.
pub uninterp spec fn global_section_entries(s: GlobalSection) -> Seq<GlobalDef>;

/// The exports added to an export section, in order.
pub uninterp spec fn export_section_entries(s: ExportSection) -> Seq<ExportDef>;

/// The memories added to a memory section, in order.
pub uninterp spec fn memory_section_entries(s: MemorySection) -> Seq<MemoryDef>;

/// The local declarations that a function body was created with.
pub uninterp spec fn function_locals(f: Function) -> Seq<(u32, WasmType)>;

/// The instructions written into a function body, in order.
pub uninterp spec fn function_instrs(f: Function) -> Seq<Instr>;

/// The sections appended to a module, in order.
pub uninterp spec fn module_sections(m: Module) -> Seq<SectionContent>;

/// The binary encoding of a module made of the given sections.
pub uninterp spec fn module_encoding(sections: Seq<SectionContent>) -> Seq<u8>;

impl WasmType {
    /// Converts to `wasm_encoder::ValType` (same variant name).
    #[verifier::external_body]
    fn to_valtype(self) -> ValType {
        match self {
            WasmType::I32 => ValType::I32,
            WasmType::I64 => ValType::I64,
        }
    }
}

impl BlockResult {
    /// Converts to `wasm_encoder::BlockType` (same variant name).
    #[verifier::external_body]
    fn to_block_type(self) -> wasm_encoder::BlockType {
        match self {
            BlockResult::Empty => wasm_encoder::BlockType::Empty,
            BlockResult::Result(t) => wasm_encoder::BlockType::Result(t.to_valtype()),
        }
    }
}

impl BinOp {
    /// Converts to the `wasm_encoder::Instruction` of the `i32` form of this operator.
    #[verifier::external_body]
    fn to_i32_instruction(self) -> Instruction<'static> {
        match self {
            BinOp::Add => Instruction::I32Add,
            BinOp::Sub => Instruction::I32Sub,
            BinOp::Mul => Instruction::I32Mul,
            BinOp::DivS => Instruction::I32DivS,
            BinOp::Eq => Instruction::I32Eq,
            BinOp::Ne => Instruction::I32Ne,
            BinOp::LtS => Instruction::I32LtS,
            BinOp::GtS => Instruction::I32GtS,
            BinOp::LeS => Instruction::I32LeS,
            BinOp::GeS => Instruction::I32GeS,
            BinOp::And => Instruction::I32And,
            BinOp::Or => Instruction::I32Or,
        }
    }

    /// Converts to the `wasm_encoder::Instruction` of the `i64` form of this operator.
    #[verifier::external_body]
    fn to_i64_instruction(self) -> Instruction<'static> {
        match self {
            BinOp::Add => Instruction::I64Add,
            BinOp::Sub => Instruction::I64Sub,
            BinOp::Mul => Instruction::I64Mul,
            BinOp::DivS => Instruction::I64DivS,
            BinOp::Eq => Instruction::I64Eq,
            BinOp::Ne => Instruction::I64Ne,
            BinOp::LtS => Instruction::I64LtS,
            BinOp::GtS => Instruction::I64GtS,
            BinOp::LeS => Instruction::I64LeS,
            BinOp::GeS => Instruction::I64GeS,
            BinOp::And => Instruction::I64And,
            BinOp::Or => Instruction::I64Or,
        }
    }
}

impl NumInstr {
    /// Converts to `wasm_encoder::Instruction` (same instruction).
    #[verifier::external_body]
    fn to_instruction(self) -> Instruction<'static> {
        match self {
            NumInstr::I32Const(v) => Instruction::I32Const(v),
            NumInstr::I64Const(v) => Instruction::I64Const(v),
            NumInstr::Binary(WasmType::I32, op) => op.to_i32_instruction(),
            NumInstr::Binary(WasmType::I64, op) => op.to_i64_instruction(),
        }
    }
}

impl CtrlInstr {
    /// Converts to `wasm_encoder::Instruction` (same instruction).
    #[verifier::external_body]
    fn to_instruction(self) -> Instruction<'static> {
        match self {
            CtrlInstr::Loop => Instruction::Loop(wasm_encoder::BlockType::Empty),
            CtrlInstr::If(b) => Instruction::If(b.to_block_type()),
            CtrlInstr::Else => Instruction::Else,
            CtrlInstr::End => Instruction::End,
            CtrlInstr::Br(d) => Instruction::Br(d),
            CtrlInstr::BrIf(d) => Instruction::BrIf(d),
            CtrlInstr::Return => Instruction::Return,
            CtrlInstr::Call(f) => Instruction::Call(f),
        }
    }
}

impl Instr {
    /// Converts to `wasm_encoder::Instruction` (same instruction).
    #[verifier::external_body]
    fn to_instruction(self) -> Instruction<'static> {
        match self {
            Instr::Numeric(n) => n.to_instruction(),
            Instr::Variable(VarInstr::LocalGet(i)) => Instruction::LocalGet(i),
            Instr::Variable(VarInstr::LocalSet(i)) => Instruction::LocalSet(i),
            Instr::Drop => Instruction::Drop,
            Instr::Control(c) => c.to_instruction(),
        }
    }
}

/// `TypeSection::new`: an empty type section.
#[verifier::external_body]
pub(crate) fn type_section_new() -> (s: TypeSection)
    ensures
        type_section_entries(s) == Seq::<FuncSig>::empty(),
{
    TypeSection::new()
}

/// `TypeSection::len`: the number of types added so far.
#[verifier::external_body]
pub(crate) fn type_section_len(s: &TypeSection) -> (n: u32)
    ensures
        n == type_section_entries(*s).len(),
{
    s.len()
}

/// `TypeSection::ty().function(..)`: appends the function type `params -> results`.
/// The count of added types is a `u32` and each list length is encoded as one.
#[verifier::external_body]
pub(crate) fn type_section_function(s: &mut TypeSection, params: &Vec<WasmType>, results: &Vec<WasmType>)
    requires
        type_section_entries(*old(s)).len() < u32::MAX,
        params@.len() <= u32::MAX,
        results@.len() <= u32::MAX,
    ensures
        type_section_entries(*final(s)) == type_section_entries(*old(s)).push((params@, results@)),
{
    s.ty().function(params.iter().map(|t| t.to_valtype()), results.iter().map(|t| t.to_valtype()));
}

/// `FunctionSection::new`: an empty function section.
#[verifier::external_body]
pub(crate) fn function_section_new() -> (s: FunctionSection)
    ensures
        function_section_entries(s) == Seq::<u32>::empty(),
{
    FunctionSection::new()
}

/// `FunctionSection::function`: appends a function with the given type index.
#[verifier::external_body]
pub(crate) fn function_section_function(s: &mut FunctionSection, type_index: u32)
    requires
        function_section_entries(*old(s)).len() < u32::MAX,
    ensures
        function_section_entries(*final(s)) == function_section_entries(*old(s)).push(type_index),
{
    s.function(type_index);
}

/// `CodeSection::new`: an empty code section.
#[verifier::external_body]
pub(crate) fn code_section_new() -> (s: CodeSection)
    ensures
        code_section_entries(s) == Seq::<FuncBody>::empty(),
{
    CodeSection::new()
}

/// `CodeSection::function`: appends the body of `f`. The body's byte length is
/// encoded as a `u32` (the encoder asserts it fits); `body_cost` bounds it.
#[verifier::external_body]
pub(crate) fn code_section_function(s: &mut CodeSection, f: &Function)
    requires
        code_section_entries(*old(s)).len() < u32::MAX,
        body_cost((function_locals(*f), function_instrs(*f))) <= u32_limit(),
    ensures
        code_section_entries(*final(s)) == code_section_entries(*old(s)).push(
            (function_locals(*f), function_instrs(*f)),
        ),
{
    s.function(f);
}

/// `GlobalSection::new`: an empty global section.
#[verifier::external_body]
pub(crate) fn global_section_new() -> (s: GlobalSection)
    ensures
        global_section_entries(s) == Seq::<GlobalDef>::empty(),
{
    GlobalSection::new()
}

/// `GlobalSection::global` with an unshared global of type `ty` whose
/// initializer is `ConstExpr::i32_const(init)`.
#[verifier::external_body]
pub(crate) fn global_section_global(s: &mut GlobalSection, ty: WasmType, mutable: bool, init: i32)
    requires
        global_section_entries(*old(s)).len() < u32::MAX,
    ensures
        global_section_entries(*final(s)) == global_section_entries(*old(s)).push(
            (ty, mutable, init),
        ),
{
    s.global(GlobalType { val_type: ty.to_valtype(), mutable, shared: false }, &ConstExpr::i32_const(init));
}

/// `ExportSection::new`: an empty export section.
#[verifier::external_body]
pub(crate) fn export_section_new() -> (s: ExportSection)
    ensures
        export_section_entries(s) == Seq::<ExportDef>::empty(),
{
    ExportSection::new()
}

/// `ExportSection::export` of the function `index` under `name`. The name's
/// byte length (at most four bytes per char) is encoded as a `u32`.
#[verifier::external_body]
pub(crate) fn export_section_export_func(s: &mut ExportSection, name: &str, index: u32)
    requires
        export_section_entries(*old(s)).len() < u32::MAX,
        4 * name@.len() <= u32_limit(),
    ensures
        export_section_entries(*final(s)) == export_section_entries(*old(s)).push((name@, index)),
{
    s.export(name, ExportKind::Func, index);
}

/// `MemorySection::new`: an empty memory section.
#[verifier::external_body]
pub(crate) fn memory_section_new() -> (s: MemorySection)
    ensures
        memory_section_entries(s) == Seq::<MemoryDef>::empty(),
{
    MemorySection::new()
}

/// `MemorySection::memory` with a 32-bit, unshared memory of default page size.
#[verifier::external_body]
pub(crate) fn memory_section_memory(s: &mut MemorySection, minimum: u64, maximum: Option<u64>)
    requires
        memory_section_entries(*old(s)).len() < u32::MAX,
    ensures
        memory_section_entries(*final(s)) == memory_section_entries(*old(s)).push(
            (minimum, maximum),
        ),
{
    s.memory(MemoryType { minimum, maximum, memory64: false, shared: false, page_size_log2: None });
}

/// `Function::new`: an empty body with the given run-length encoded locals.
/// The number of declarations is encoded as a `u32`.
#[verifier::external_body]
pub(crate) fn function_new(locals: &Vec<(u32, WasmType)>) -> (f: Function)
    requires
        locals@.len() <= u32::MAX,
    ensures
        function_locals(f) == locals@,
        function_instrs(f) == Seq::<Instr>::empty(),
{
    Function::new(locals.iter().map(|(n, t)| (*n, t.to_valtype())))
}

/// `Function::instruction`: appends one instruction to the body.
#[verifier::external_body]
pub(crate) fn function_instruction(f: &mut Function, i: Instr)
    ensures
        function_locals(*final(f)) == function_locals(*old(f)),
        function_instrs(*final(f)) == function_instrs(*old(f)).push(i),
{
    f.instruction(&i.to_instruction());
}

/// `Module::new`: a module with no sections.
#[verifier::external_body]
pub(crate) fn module_new() -> (m: Module)
    ensures
        module_sections(m) == Seq::<SectionContent>::empty(),
{
    Module::new()
}

/// `Module::section` with a type section. The section's byte length is encoded as a `u32`.
#[verifier::external_body]
pub(crate) fn module_type_section(m: &mut Module, s: &TypeSection)
    requires
        5 + seq_cost(type_section_entries(*s), type_entry_cost()) <= u32_limit(),
    ensures
        module_sections(*final(m)) == module_sections(*old(m)).push(
            SectionContent::Type(type_section_entries(*s)),
        ),
{
    m.section(s);
}

/// `Module::section` with a function section.
#[verifier::external_body]
pub(crate) fn module_function_section(m: &mut Module, s: &FunctionSection)
    requires
        5 + 5 * function_section_entries(*s).len() <= u32_limit(),
    ensures
        module_sections(*final(m)) == module_sections(*old(m)).push(
            SectionContent::Function(function_section_entries(*s)),
        ),
{
    m.section(s);
}

/// `Module::section` with a memory section.
#[verifier::external_body]
pub(crate) fn module_memory_section(m: &mut Module, s: &MemorySection)
    requires
        5 + 21 * memory_section_entries(*s).len() <= u32_limit(),
    ensures
        module_sections(*final(m)) == module_sections(*old(m)).push(
            SectionContent::Memory(memory_section_entries(*s)),
        ),
{
    m.section(s);
}

/// `Module::section` with a global section.
#[verifier::external_body]
pub(crate) fn module_global_section(m: &mut Module, s: &GlobalSection)
    requires
        5 + 10 * global_section_entries(*s).len() <= u32_limit(),
    ensures
        module_sections(*final(m)) == module_sections(*old(m)).push(
            SectionContent::Global(global_section_entries(*s)),
        ),
{
    m.section(s);
}

/// `Module::section` with an export section.
#[verifier::external_body]
pub(crate) fn module_export_section(m: &mut Module, s: &ExportSection)
    requires
        5 + seq_cost(export_section_entries(*s), export_entry_cost()) <= u32_limit(),
    ensures
        module_sections(*final(m)) == module_sections(*old(m)).push(
            SectionContent::Export(export_section_entries(*s)),
        ),
{
    m.section(s);
}

/// `Module::section` with a code section.
#[verifier::external_body]
pub(crate) fn module_code_section(m: &mut Module, s: &CodeSection)
    requires
        5 + seq_cost(code_section_entries(*s), code_entry_cost()) <= u32_limit(),
    ensures
        module_sections(*final(m)) == module_sections(*old(m)).push(
            SectionContent::Code(code_section_entries(*s)),
        ),
{
    m.section(s);
}

/// `Module::finish`: the module's bytes, which start with the eight header
/// bytes that `Module::new` wrote.
#[verifier::external_body]
pub(crate) fn module_finish(m: Module) -> (bytes: Vec<u8>)
    ensures
        bytes@ == module_encoding(module_sections(m)),
        bytes@.len() >= 8,
        bytes@.take(8) == wasm_header(),
{
    m.finish()
}

} // verus!
