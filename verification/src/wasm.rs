use vstd::prelude::*;

verus! {

/// The WebAssembly value types that code generation uses.
#[derive(Clone, Copy, Debug, PartialEq, Eq, Structural)]
pub enum WasmType {
    I32,
    I64,
}

/// Binary operators of the numeric instruction class.
#[derive(Clone, Copy, Debug, PartialEq, Eq, Structural)]
pub enum BinOp {
    Add,
    Sub,
    Mul,
    DivS,
    Eq,
    Ne,
    LtS,
    GtS,
    LeS,
    GeS,
    And,
    Or,
}

/// The result type of a structured `if` / `loop` block.
#[derive(Clone, Copy, Debug, PartialEq, Eq, Structural)]
pub enum BlockResult {
    Empty,
    Result(WasmType),
}

/// Numeric instructions: constants and binary operators.
#[derive(Clone, Copy, Debug, PartialEq, Eq, Structural)]
pub enum NumInstr {
    I32Const(i32),
    I64Const(i64),
    Binary(WasmType, BinOp),
}

/// Variable instructions.
#[derive(Clone, Copy, Debug, PartialEq, Eq, Structural)]
pub enum VarInstr {
    LocalGet(u32),
    LocalSet(u32),
}

/// Control instructions.
#[derive(Clone, Copy, Debug, PartialEq, Eq, Structural)]
pub enum CtrlInstr {
    Loop,
    If(BlockResult),
    Else,
    End,
    Br(u32),
    BrIf(u32),
    Return,
    Call(u32),
}

/// A WebAssembly instruction, grouped by the instruction classes of the
/// WebAssembly specification.
#[derive(Clone, Copy, Debug, PartialEq, Eq, Structural)]
pub enum Instr {
    Numeric(NumInstr),
    Variable(VarInstr),
    Drop,
    Control(CtrlInstr),
}

/// A function signature: parameter types and result types.
pub type FuncSig = (Seq<WasmType>, Seq<WasmType>);

/// A function body: run-length encoded local declarations and instructions.
pub type FuncBody = (Seq<(u32, WasmType)>, Seq<Instr>);

/// A global: its value type, whether it is mutable, and its `i32` initializer.
pub type GlobalDef = (WasmType, bool, i32);

/// A function export: its name and function index.
pub type ExportDef = (Seq<char>, u32);

/// A memory: minimum and optional maximum size in pages.
pub type MemoryDef = (u64, Option<u64>);

/// The contents of one section of a module, in the order they were added.
pub enum SectionContent {
    Type(Seq<FuncSig>),
    Function(Seq<u32>),
    Memory(Seq<MemoryDef>),
    Global(Seq<GlobalDef>),
    Export(Seq<ExportDef>),
    Code(Seq<FuncBody>),
}

pub open spec fn i32_const(v: i32) -> Instr {
    Instr::Numeric(NumInstr::I32Const(v))
}

pub open spec fn i64_const(v: i64) -> Instr {
    Instr::Numeric(NumInstr::I64Const(v))
}

pub open spec fn binary(t: WasmType, op: BinOp) -> Instr {
    Instr::Numeric(NumInstr::Binary(t, op))
}

pub open spec fn ctrl(c: CtrlInstr) -> Instr {
    Instr::Control(c)
}

/// The eight bytes that open every WebAssembly module: `\0asm` and version 1.
pub open spec fn wasm_header() -> Seq<u8> {
    seq![0x00u8, 0x61u8, 0x73u8, 0x6du8, 0x01u8, 0x00u8, 0x00u8, 0x00u8]
}

/// The sum of `cost` over a sequence.
pub open spec fn seq_cost<A>(s: Seq<A>, cost: spec_fn(A) -> nat) -> nat
    decreases s.len(),
{
    if s.len() == 0 {
        0
    } else {
        seq_cost(s.drop_last(), cost) + cost(s.last())
    }
}

/// The cost of a prefix is at most the cost of the whole sequence.
pub proof fn lemma_seq_cost_prefix<A>(s: Seq<A>, k: int, cost: spec_fn(A) -> nat)
    requires
        0 <= k <= s.len(),
    ensures
        seq_cost(s.take(k), cost) <= seq_cost(s, cost),
    decreases s.len(),
{
    if k < s.len() {
        lemma_seq_cost_prefix(s.drop_last(), k, cost);
        assert(s.drop_last().take(k) =~= s.take(k));
    } else {
        assert(s.take(k) =~= s);
    }
}

/// An upper bound on the encoded size in bytes of one instruction.
pub open spec fn instr_bytes_bound() -> nat {
    11
}

/// An upper bound on the encoded size of a function signature.
pub open spec fn sig_cost(sig: FuncSig) -> nat {
    11 + sig.0.len() + sig.1.len()
}

/// An upper bound on the encoded size of a function body, its length prefix included.
pub open spec fn body_cost(body: FuncBody) -> nat {
    10 + 6 * body.0.len() + instr_bytes_bound() * body.1.len()
}

/// An upper bound on the encoded size of an export entry.
pub open spec fn export_cost(e: ExportDef) -> nat {
    11 + 4 * e.0.len()
}

pub open spec fn type_entry_cost() -> spec_fn(FuncSig) -> nat {
    |s: FuncSig| sig_cost(s)
}

pub open spec fn code_entry_cost() -> spec_fn(FuncBody) -> nat {
    |b: FuncBody| body_cost(b)
}

pub open spec fn export_entry_cost() -> spec_fn(ExportDef) -> nat {
    |e: ExportDef| export_cost(e)
}

/// The most bytes that the length fields of the binary format can describe.
pub open spec fn u32_limit() -> nat {
    0xffff_ffffnat
}


/// What a WebAssembly binary instruction computes on the (signed) operand
/// values `x` and `y`, before wrapping to its width: comparisons give 1 or 0.
/// `And` and `Or` are given for boolean operands (0 or 1), on which the
/// bitwise operations are the logical ones.
pub open spec fn eval_binop(b: BinOp, x: int, y: int) -> int {
    match b {
        BinOp::Add => x + y,
        BinOp::Sub => x - y,
        BinOp::Mul => x * y,
        BinOp::DivS => crate::ast::quotient(x, y),
        BinOp::Eq => crate::ast::flag(x == y),
        BinOp::Ne => crate::ast::flag(x != y),
        BinOp::LtS => crate::ast::flag(x < y),
        BinOp::GtS => crate::ast::flag(x > y),
        BinOp::LeS => crate::ast::flag(x <= y),
        BinOp::GeS => crate::ast::flag(x >= y),
        BinOp::And => crate::ast::flag(x != 0 && y != 0),
        BinOp::Or => crate::ast::flag(x != 0 || y != 0),
    }
}

} // verus!
