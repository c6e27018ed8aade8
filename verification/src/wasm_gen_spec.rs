//! What compiling a typed program to WebAssembly means: the compiler's state
//! as plain values, and the effect of compiling each expression, statement and
//! function definition on that state and on the function body being written.
use vstd::prelude::*;
use crate::encoder::module_encoding;
use crate::ast::{
    ant_op, stmts_tys_below, expr_size, exprs_size, spec_type_of, stmt_size, stmts_size, IntTy, IntValue, TyId, Ty,
    TypedExpression, TypedNode, TypedStatement,
};
use crate::wasm::{
    binary, eval_binop, NumInstr, code_entry_cost, ctrl, export_entry_cost, i32_const, i64_const, lemma_seq_cost_prefix,
    seq_cost, type_entry_cost, u32_limit, BinOp, BlockResult, CtrlInstr, ExportDef, FuncBody,
    FuncSig, GlobalDef, Instr, SectionContent, VarInstr, WasmType,
};

verus! {

/// The state of a [`crate::wasm_gen::WasmCompiler`] as plain values.
#[verifier::ext_equal]
pub struct CompilerModel {
    /// Function types declared so far (type section).
    pub types: Seq<FuncSig>,
    /// Type index of each declared function (function section).
    pub funcs: Seq<u32>,
    /// Bodies of the functions compiled so far (code section).
    pub code: Seq<FuncBody>,
    /// Globals (global section).
    pub globals: Seq<GlobalDef>,
    /// Exported functions (export section).
    pub exports: Seq<ExportDef>,
    /// The type context.
    pub tys: Seq<Ty>,
    /// Number of functions declared so far.
    pub func_count: u32,
    /// Local variable slots of the function being compiled, by name.
    pub locals: Map<Seq<char>, u32>,
    /// The next local slot to hand out.
    pub next_local: u32,
    /// Function indices, by name.
    pub func_indices: Map<Seq<char>, u32>,
}

/// The result of compiling one piece of a program: the new state, the
/// instructions written into the current function body, and the error that
/// stopped compilation, if any.
pub struct Outcome {
    pub st: CompilerModel,
    pub code: Seq<Instr>,
    pub err: Option<Seq<char>>,
}

/// `i64` and `u64` are 64-bit in WebAssembly; every other type is 32-bit.
pub open spec fn wasm_type_of(t: Ty) -> WasmType {
    match t {
        Ty::IntTy(IntTy::I64) => WasmType::I64,
        Ty::IntTy(IntTy::U64) => WasmType::I64,
        _ => WasmType::I32,
    }
}

pub open spec fn type_at(m: CompilerModel, id: TyId) -> WasmType {
    wasm_type_of(m.tys[id as int])
}

/// The bit pattern of an integer literal as an `i64`.
pub open spec fn int_bits(v: IntValue) -> i64 {
    match v {
        IntValue::I8(x) => x as i64,
        IntValue::I16(x) => x as i64,
        IntValue::I32(x) => x as i64,
        IntValue::I64(x) => x,
        IntValue::U8(x) => x as i64,
        IntValue::U16(x) => x as i64,
        IntValue::U32(x) => x as i64,
        IntValue::U64(x) => x as i64,
    }
}

/// The constant instruction for an integer literal of wasm type `t`.
pub open spec fn int_const(t: WasmType, v: IntValue) -> Instr {
    match t {
        WasmType::I32 => i32_const(int_bits(v) as i32),
        WasmType::I64 => i64_const(int_bits(v)),
    }
}

/// The zero constant of a wasm type.
pub open spec fn zero_const(t: WasmType) -> Instr {
    match t {
        WasmType::I32 => i32_const(0),
        WasmType::I64 => i64_const(0),
    }
}

/// Reading a variable: its local slot if it has one, else the constant 0.
pub open spec fn read_var(m: CompilerModel, name: Seq<char>) -> Instr {
    if m.locals.contains_key(name) {
        Instr::Variable(VarInstr::LocalGet(m.locals[name]))
    } else {
        i32_const(0)
    }
}

/// The operator that a binary operator symbol denotes.
pub open spec fn binop_of(op: Seq<char>) -> Option<BinOp> {
    if op == "+"@ {
        Some(BinOp::Add)
    } else if op == "-"@ {
        Some(BinOp::Sub)
    } else if op == "*"@ {
        Some(BinOp::Mul)
    } else if op == "/"@ {
        Some(BinOp::DivS)
    } else if op == "=="@ {
        Some(BinOp::Eq)
    } else if op == "!="@ {
        Some(BinOp::Ne)
    } else if op == "<"@ {
        Some(BinOp::LtS)
    } else if op == ">"@ {
        Some(BinOp::GtS)
    } else if op == "<="@ {
        Some(BinOp::LeS)
    } else if op == ">="@ {
        Some(BinOp::GeS)
    } else {
        None
    }
}

pub open spec fn unknown_function_msg(name: Seq<char>) -> Seq<char> {
    "Unknown function: "@ + name
}

pub open spec fn unsupported_op_msg(op: Seq<char>) -> Seq<char> {
    "Unsupported binary operator: "@ + op
}

pub open spec fn emit(m: CompilerModel, code: Seq<Instr>) -> Outcome {
    Outcome { st: m, code, err: None }
}

/// `first`, then `second` (which was computed from `first.st`).
pub open spec fn then(first: Outcome, second: Outcome) -> Outcome {
    Outcome { st: second.st, code: first.code + second.code, err: second.err }
}

pub open spec fn append(o: Outcome, code: Seq<Instr>) -> Outcome {
    Outcome { st: o.st, code: o.code + code, err: o.err }
}

pub open spec fn fail(o: Outcome, msg: Seq<char>) -> Outcome {
    Outcome { st: o.st, code: o.code, err: Some(msg) }
}

/// A call of `name` after its arguments were compiled into `o`.
pub open spec fn call_target(o: Outcome, name: Seq<char>, nargs: nat) -> Outcome {
    if o.st.func_indices.contains_key(name) {
        append(o, seq![ctrl(CtrlInstr::Call(o.st.func_indices[name]))])
    } else if name == "printf"@ {
        append(o, Seq::new(nargs, |i: int| Instr::Drop).push(i32_const(0)))
    } else {
        fail(o, unknown_function_msg(name))
    }
}

/// The typed parameters of a function definition (those written `name: type`).
pub open spec fn param_list(tys: Seq<Ty>, params: Seq<TypedExpression>) -> Seq<(Seq<char>, Ty)>
    decreases params.len(),
{
    if params.len() == 0 {
        seq![]
    } else {
        let rest = param_list(tys, params.drop_last());
        match params.last() {
            TypedExpression::TypeHint(n, ty) => rest.push((n@, tys[ty as int])),
            _ => rest,
        }
    }
}

/// Parameters occupy the first local slots, in order.
pub open spec fn param_locals(ps: Seq<(Seq<char>, Ty)>) -> Map<Seq<char>, u32>
    decreases ps.len(),
{
    if ps.len() == 0 {
        Map::empty()
    } else {
        param_locals(ps.drop_last()).insert(ps.last().0, (ps.len() - 1) as u32)
    }
}

pub open spec fn param_types(ps: Seq<(Seq<char>, Ty)>) -> Seq<WasmType> {
    ps.map_values(|p: (Seq<char>, Ty)| wasm_type_of(p.1))
}

/// A function returning unit has no results; any other has one.
pub open spec fn result_types(ret: Ty) -> Seq<WasmType> {
    if ret == Ty::Unit {
        seq![]
    } else {
        seq![wasm_type_of(ret)]
    }
}

/// A function with a result whose body block does not end in an expression
/// statement gets a zero of the result type pushed before it returns.
pub open spec fn default_return(results: Seq<WasmType>, body: TypedExpression) -> Seq<Instr> {
    if results.len() > 0 && match body {
        TypedExpression::Block(stmts, _) => !(stmts@.len() > 0
            && stmts@.last() is ExpressionStatement),
        _ => false,
    } {
        seq![zero_const(results[0])]
    } else {
        seq![]
    }
}

/// The state after declaring a function of signature `sig`.
pub open spec fn declare(m: CompilerModel, sig: FuncSig) -> CompilerModel {
    CompilerModel {
        types: m.types.push(sig),
        funcs: m.funcs.push(m.types.len() as u32),
        func_count: (m.func_count + 1) as u32,
        ..m
    }
}

/// The wasm types of the `let`-bound locals that an expression declares up front:
/// only a block's statements are looked into.
pub open spec fn collect_expr(tys: Seq<Ty>, e: TypedExpression) -> Seq<WasmType>
    decreases expr_size(e), 0nat,
{
    match e {
        TypedExpression::Block(stmts, _) => collect_stmts(tys, stmts@),
        _ => seq![],
    }
}

pub open spec fn collect_stmts(tys: Seq<Ty>, s: Seq<TypedStatement>) -> Seq<WasmType>
    decreases stmts_size(s), 1nat,
{
    if s.len() == 0 {
        seq![]
    } else {
        collect_stmts(tys, s.drop_last()) + collect_stmt(tys, s.last())
    }
}

pub open spec fn collect_stmt(tys: Seq<Ty>, st: TypedStatement) -> Seq<WasmType>
    decreases stmt_size(st), 0nat,
{
    match st {
        TypedStatement::Let { value, ty, .. } => seq![wasm_type_of(tys[ty as int])] + collect_expr(
            tys,
            value,
        ),
        TypedStatement::ExpressionStatement(e) => collect_expr(tys, e),
        TypedStatement::Block { statements } => collect_stmts(tys, statements@),
        TypedStatement::While { condition, block } => collect_expr(tys, condition) + collect_stmt(
            tys,
            *block,
        ),
        TypedStatement::Return { expr } => collect_expr(tys, expr),
        _ => seq![],
    }
}

/// Run-length encoding of local types: each entry is a count and a type,
/// consecutive entries have different types.
pub open spec fn run_lengths(ts: Seq<WasmType>) -> Seq<(u32, WasmType)>
    decreases ts.len(),
{
    if ts.len() == 0 {
        seq![]
    } else {
        let g = run_lengths(ts.drop_last());
        let t = ts.last();
        if g.len() > 0 && g.last().1 == t {
            g.update(g.len() - 1, ((g.last().0 + 1) as u32, t))
        } else {
            g.push((1u32, t))
        }
    }
}

/// Compiling an expression.
pub open spec fn sem_expr(m: CompilerModel, e: TypedExpression) -> Outcome
    decreases expr_size(e), 0nat,
{
    match e {
        TypedExpression::Int { value, ty } => emit(m, seq![int_const(type_at(m, ty), value)]),
        TypedExpression::Bool { value, .. } => emit(m, seq![i32_const(if value { 1 } else { 0 })]),
        TypedExpression::Ident(name, _) => emit(m, seq![read_var(m, name@)]),
        TypedExpression::TypeHint(name, _) => emit(m, seq![read_var(m, name@)]),
        TypedExpression::Call { func, args, .. } => {
            let o = sem_args(m, args@);
            if o.err is Some {
                o
            } else {
                match *func {
                    TypedExpression::Ident(name, _) => call_target(o, name@, args@.len()),
                    _ => o,
                }
            }
        },
        TypedExpression::Infix { left, op, right, .. } => sem_binary(m, *left, op@, *right),
        TypedExpression::Block(stmts, _) => sem_block(m, stmts@, stmts@.len()),
        TypedExpression::BoolAnd { left, right, .. } => sem_logic(m, *left, *right, BinOp::And),
        TypedExpression::BoolOr { left, right, .. } => sem_logic(m, *left, *right, BinOp::Or),
        TypedExpression::If { condition, consequence, else_block, .. } => match else_block {
            Some(alt) => sem_if_else(m, *condition, *consequence, *alt),
            None => sem_if(m, *condition, *consequence),
        },
        _ => emit(m, seq![i32_const(0)]),
    }
}

/// Compiling call arguments, left to right.
pub open spec fn sem_args(m: CompilerModel, s: Seq<TypedExpression>) -> Outcome
    decreases exprs_size(s), 1nat,
{
    if s.len() == 0 {
        emit(m, seq![])
    } else {
        proof {
            assert(expr_size(s.last()) >= 1);
        }
        let o = sem_args(m, s.drop_last());
        if o.err is Some {
            o
        } else {
            then(o, sem_expr(o.st, s.last()))
        }
    }
}

/// Compiling `left && right` or `left || right`.
pub open spec fn sem_logic(
    m: CompilerModel,
    left: TypedExpression,
    right: TypedExpression,
    op: BinOp,
) -> Outcome
    decreases expr_size(left) + expr_size(right), 1nat,
{
    let o1 = sem_expr(m, left);
    if o1.err is Some {
        o1
    } else {
        let o2 = then(o1, sem_expr(o1.st, right));
        if o2.err is Some {
            o2
        } else {
            append(o2, seq![binary(WasmType::I32, op)])
        }
    }
}

/// Compiling a binary operation `left op right`; the operation is at the wasm
/// type of `left`.
pub open spec fn sem_binary(
    m: CompilerModel,
    left: TypedExpression,
    op: Seq<char>,
    right: TypedExpression,
) -> Outcome
    decreases expr_size(left) + expr_size(right), 1nat,
{
    let o1 = sem_expr(m, left);
    if o1.err is Some {
        o1
    } else {
        let o2 = then(o1, sem_expr(o1.st, right));
        if o2.err is Some {
            o2
        } else {
            match binop_of(op) {
                Some(b) => append(o2, seq![binary(type_at(m, spec_type_of(left)), b)]),
                None => fail(o2, unsupported_op_msg(op)),
            }
        }
    }
}

/// Compiling `if condition { consequence }`.
pub open spec fn sem_if(m: CompilerModel, condition: TypedExpression, consequence: TypedExpression) -> Outcome
    decreases expr_size(condition) + expr_size(consequence), 1nat,
{
    let o1 = sem_expr(m, condition);
    if o1.err is Some {
        o1
    } else {
        let o2 = then(
            append(o1, seq![ctrl(CtrlInstr::If(BlockResult::Empty))]),
            sem_expr(o1.st, consequence),
        );
        if o2.err is Some {
            o2
        } else {
            append(o2, seq![ctrl(CtrlInstr::End)])
        }
    }
}

/// Compiling `if condition { consequence } else { alternative }` as a value of
/// the consequence's wasm type.
pub open spec fn sem_if_else(
    m: CompilerModel,
    condition: TypedExpression,
    consequence: TypedExpression,
    alternative: TypedExpression,
) -> Outcome
    decreases expr_size(condition) + expr_size(consequence) + expr_size(alternative), 1nat,
{
    let rt = type_at(m, spec_type_of(consequence));
    let o1 = sem_expr(m, condition);
    if o1.err is Some {
        o1
    } else {
        let o2 = then(
            append(o1, seq![ctrl(CtrlInstr::If(BlockResult::Result(rt)))]),
            sem_expr(o1.st, consequence),
        );
        if o2.err is Some {
            o2
        } else {
            let o3 = then(append(o2, seq![ctrl(CtrlInstr::Else)]), sem_expr(o2.st, alternative));
            if o3.err is Some {
                o3
            } else {
                append(o3, seq![ctrl(CtrlInstr::End)])
            }
        }
    }
}

/// Compiling the statements of a block expression of `total` statements; only
/// the last is compiled with `keep_result` set, so it alone may leave its value.
pub open spec fn sem_block(m: CompilerModel, s: Seq<TypedStatement>, total: nat) -> Outcome
    decreases stmts_size(s), 1nat,
{
    if s.len() == 0 {
        emit(m, seq![])
    } else {
        proof {
            assert(stmt_size(s.last()) >= 1);
        }
        let o = sem_block(m, s.drop_last(), total);
        if o.err is Some {
            o
        } else {
            then(o, sem_stmt(o.st, s.last(), s.len() == total))
        }
    }
}

/// Compiling the statements of a block statement.
pub open spec fn sem_stmts(m: CompilerModel, s: Seq<TypedStatement>) -> Outcome
    decreases stmts_size(s), 1nat,
{
    if s.len() == 0 {
        emit(m, seq![])
    } else {
        proof {
            assert(stmt_size(s.last()) >= 1);
        }
        let o = sem_stmts(m, s.drop_last());
        if o.err is Some {
            o
        } else {
            then(o, sem_stmt(o.st, s.last(), false))
        }
    }
}

/// Compiling a statement. An expression statement whose value is not kept and
/// is not 32-bit is dropped.
pub open spec fn sem_stmt(m: CompilerModel, st: TypedStatement, keep_result: bool) -> Outcome
    decreases stmt_size(st), 0nat,
{
    match st {
        TypedStatement::Let { name, value, .. } => {
            let o = sem_expr(m, value);
            if o.err is Some {
                o
            } else {
                let idx = o.st.next_local;
                Outcome {
                    st: CompilerModel {
                        next_local: (idx + 1) as u32,
                        locals: o.st.locals.insert(name@, idx),
                        ..o.st
                    },
                    code: o.code.push(Instr::Variable(VarInstr::LocalSet(idx))),
                    err: None,
                }
            }
        },
        TypedStatement::ExpressionStatement(e) => match e {
            TypedExpression::Function { name, params, block, .. } => match name {
                Some(n) => {
                    proof {
                        assert(expr_size(e) > expr_size(*block));
                    }
                    sem_function(
                    m,
                    n@,
                    param_list(m.tys, params@),
                    m.tys[spec_type_of(*block) as int],
                    *block,
                )
                },
                None => emit(m, seq![]),
            },
            _ => {
                let o = sem_expr(m, e);
                if o.err is None && !keep_result && type_at(m, spec_type_of(e)) != WasmType::I32 {
                    append(o, seq![Instr::Drop])
                } else {
                    o
                }
            },
        },
        TypedStatement::Return { expr } => {
            let o = sem_expr(m, expr);
            if o.err is Some {
                o
            } else {
                append(o, seq![ctrl(CtrlInstr::Return)])
            }
        },
        TypedStatement::Block { statements } => sem_stmts(m, statements@),
        TypedStatement::While { condition, block } => sem_while(m, condition, *block),
        _ => emit(m, seq![]),
    }
}

/// Compiling `while condition { block }`: two nested loops, the outer one
/// left by `br_if 1` when the condition is 0, the inner one repeated by `br 0`.
pub open spec fn sem_while(m: CompilerModel, condition: TypedExpression, block: TypedStatement) -> Outcome
    decreases expr_size(condition) + stmt_size(block), 1nat,
{
    let o1 = then(
        emit(m, seq![ctrl(CtrlInstr::Loop), ctrl(CtrlInstr::Loop)]),
        sem_expr(m, condition),
    );
    if o1.err is Some {
        o1
    } else {
        let o2 = then(
            append(
                o1,
                seq![i32_const(0), binary(WasmType::I32, BinOp::Eq), ctrl(CtrlInstr::BrIf(1))],
            ),
            sem_stmt(o1.st, block, false),
        );
        if o2.err is Some {
            o2
        } else {
            append(o2, seq![ctrl(CtrlInstr::Br(0)), ctrl(CtrlInstr::End), ctrl(CtrlInstr::End)])
        }
    }
}

/// Compiling the definition of function `name`: it is declared (which gives it
/// the next function index), its parameters become its first locals, its body
/// is compiled into a fresh function body, which is added to the code section,
/// and it is exported under its name. No instructions go to the enclosing body.
pub open spec fn sem_function(
    m: CompilerModel,
    name: Seq<char>,
    params: Seq<(Seq<char>, Ty)>,
    ret: Ty,
    body: TypedExpression,
) -> Outcome
    decreases expr_size(body), 1nat,
{
    let results = result_types(ret);
    let idx = m.func_count;
    let m1 = CompilerModel {
        func_indices: m.func_indices.insert(name, idx),
        locals: param_locals(params),
        next_local: params.len() as u32,
        ..declare(m, (param_types(params), results))
    };
    let o = sem_expr(m1, body);
    if o.err is Some {
        Outcome { st: o.st, code: seq![], err: o.err }
    } else {
        let decls = run_lengths(collect_expr(m.tys, body));
        let instrs = o.code + default_return(results, body) + seq![
            ctrl(CtrlInstr::Return),
            ctrl(CtrlInstr::End),
        ];
        Outcome {
            st: CompilerModel {
                code: o.st.code.push((decls, instrs)),
                exports: o.st.exports.push((name, idx)),
                ..o.st
            },
            code: seq![],
            err: None,
        }
    }
}

/// Compiling the top-level statements of a program, each into a scratch body
/// that is then discarded.
pub open spec fn sem_program(m: CompilerModel, s: Seq<TypedStatement>) -> Outcome
    decreases s.len(),
{
    if s.len() == 0 {
        emit(m, seq![])
    } else {
        let o = sem_program(m, s.drop_last());
        if o.err is Some {
            o
        } else {
            let r = sem_stmt(o.st, s.last(), false);
            Outcome { st: r.st, code: seq![], err: r.err }
        }
    }
}

/// A fresh compiler over the type context `tys`.
pub open spec fn initial_model(tys: Seq<Ty>) -> CompilerModel {
    CompilerModel {
        types: seq![],
        funcs: seq![],
        code: seq![],
        globals: seq![],
        exports: seq![],
        tys,
        func_count: 0,
        locals: Map::empty(),
        next_local: 0,
        func_indices: Map::empty(),
    }
}

/// The heap pointer: a mutable `i32` global starting at 1024.
pub open spec fn heap_global() -> GlobalDef {
    (WasmType::I32, true, 1024i32)
}

/// The sections of the finished module, in the order the binary format wants them.
pub open spec fn module_layout(m: CompilerModel) -> Seq<SectionContent> {
    seq![
        SectionContent::Type(m.types),
        SectionContent::Function(m.funcs),
        SectionContent::Memory(seq![(1u64, Some(256u64))]),
        SectionContent::Global(m.globals),
        SectionContent::Export(m.exports),
        SectionContent::Code(m.code),
    ]
}

/// The state after compiling a whole program with a fresh compiler that has
/// the heap pointer global.
pub open spec fn program_outcome(p: TypedNode, tys: Seq<Ty>) -> Outcome {
    sem_program(
        CompilerModel { globals: seq![heap_global()], ..initial_model(tys) },
        program_statements(p),
    )
}

/// What compiling a program with a fresh compiler returns: the first error,
/// or the encoding of the finished module.
pub open spec fn compile_result(p: TypedNode, tys: Seq<Ty>) -> Result<Seq<u8>, Seq<char>> {
    let o = program_outcome(p, tys);
    match o.err {
        Some(msg) => Err(msg),
        None => Ok(module_encoding(module_layout(o.st))),
    }
}


/// `small` is a prefix of `big`.
pub open spec fn is_prefix<A>(small: Seq<A>, big: Seq<A>) -> bool {
    small.len() <= big.len() && big.take(small.len() as int) == small
}

/// `big` was reached from `small` by only appending to the module's sections,
/// with the same type context.
pub open spec fn extends(big: CompilerModel, small: CompilerModel) -> bool {
    &&& is_prefix(small.types, big.types)
    &&& is_prefix(small.funcs, big.funcs)
    &&& is_prefix(small.code, big.code)
    &&& is_prefix(small.globals, big.globals)
    &&& is_prefix(small.exports, big.exports)
    &&& big.tys == small.tys
}

/// The module described by the state fits the `u32` counts and byte lengths
/// of the WebAssembly binary format.
pub open spec fn within_limits(m: CompilerModel) -> bool {
    &&& m.types.len() < u32::MAX
    &&& m.funcs.len() < u32::MAX
    &&& m.code.len() < u32::MAX
    &&& m.globals.len() < u32::MAX
    &&& m.exports.len() < u32::MAX
    &&& 5 + seq_cost(m.types, type_entry_cost()) <= u32_limit()
    &&& 5 + 5 * m.funcs.len() <= u32_limit()
    &&& 5 + 10 * m.globals.len() <= u32_limit()
    &&& 5 + seq_cost(m.exports, export_entry_cost()) <= u32_limit()
    &&& 5 + seq_cost(m.code, code_entry_cost()) <= u32_limit()
}

/// Whether a compilation step returned what the outcome says.
pub open spec fn realizes(r: Result<(), String>, o: Outcome) -> bool {
    match r {
        Ok(_) => o.err is None,
        Err(msg) => o.err == Some(msg@),
    }
}

pub proof fn lemma_prefix_trans<A>(a: Seq<A>, b: Seq<A>, c: Seq<A>)
    requires
        is_prefix(a, b),
        is_prefix(b, c),
    ensures
        is_prefix(a, c),
{
    assert(c.take(a.len() as int) =~= c.take(b.len() as int).take(a.len() as int));
}

pub proof fn lemma_prefix_push<A>(a: Seq<A>, x: A)
    ensures
        is_prefix(a, a.push(x)),
{
    assert(a.push(x).take(a.len() as int) =~= a);
}

pub proof fn lemma_extends_refl(m: CompilerModel)
    ensures
        extends(m, m),
{
    assert(m.types.take(m.types.len() as int) =~= m.types);
    assert(m.funcs.take(m.funcs.len() as int) =~= m.funcs);
    assert(m.code.take(m.code.len() as int) =~= m.code);
    assert(m.globals.take(m.globals.len() as int) =~= m.globals);
    assert(m.exports.take(m.exports.len() as int) =~= m.exports);
}

pub proof fn lemma_extends_trans(a: CompilerModel, b: CompilerModel, c: CompilerModel)
    requires
        extends(b, a),
        extends(c, b),
    ensures
        extends(c, a),
{
    lemma_prefix_trans(a.types, b.types, c.types);
    lemma_prefix_trans(a.funcs, b.funcs, c.funcs);
    lemma_prefix_trans(a.code, b.code, c.code);
    lemma_prefix_trans(a.globals, b.globals, c.globals);
    lemma_prefix_trans(a.exports, b.exports, c.exports);
}

/// A state that a state within the limits extends is within the limits too.
pub proof fn lemma_within_limits_prefix(big: CompilerModel, small: CompilerModel)
    requires
        within_limits(big),
        extends(big, small),
    ensures
        within_limits(small),
{
    lemma_seq_cost_prefix(big.types, small.types.len() as int, type_entry_cost());
    lemma_seq_cost_prefix(big.exports, small.exports.len() as int, export_entry_cost());
    lemma_seq_cost_prefix(big.code, small.code.len() as int, code_entry_cost());
}

/// Compiling an expression only appends to the module's sections.
pub proof fn lemma_expr_extends(m: CompilerModel, e: TypedExpression)
    ensures
        extends(sem_expr(m, e).st, m),
    decreases expr_size(e), 0nat,
{
    lemma_extends_refl(m);
    match e {
        TypedExpression::Call { func, args, .. } => {
            lemma_args_extends(m, args@);
        },
        TypedExpression::Infix { left, op, right, .. } => {
            lemma_binary_extends(m, *left, op@, *right);
        },
        TypedExpression::Block(stmts, _) => {
            lemma_block_extends(m, stmts@, stmts@.len());
        },
        TypedExpression::BoolAnd { left, right, .. } => {
            lemma_logic_extends(m, *left, *right, BinOp::And);
        },
        TypedExpression::BoolOr { left, right, .. } => {
            lemma_logic_extends(m, *left, *right, BinOp::Or);
        },
        TypedExpression::If { condition, consequence, else_block, .. } => match else_block {
            Some(alt) => {
                lemma_if_else_extends(m, *condition, *consequence, *alt);
            },
            None => {
                lemma_if_extends(m, *condition, *consequence);
            },
        },
        _ => {},
    }
}

pub proof fn lemma_args_extends(m: CompilerModel, s: Seq<TypedExpression>)
    ensures
        extends(sem_args(m, s).st, m),
    decreases exprs_size(s), 1nat,
{
    lemma_extends_refl(m);
    if s.len() > 0 {
        assert(expr_size(s.last()) >= 1);
        lemma_args_extends(m, s.drop_last());
        let o = sem_args(m, s.drop_last());
        if o.err is None {
            lemma_expr_extends(o.st, s.last());
            lemma_extends_trans(m, o.st, sem_expr(o.st, s.last()).st);
        }
    }
}

pub proof fn lemma_logic_extends(
    m: CompilerModel,
    left: TypedExpression,
    right: TypedExpression,
    op: BinOp,
)
    ensures
        extends(sem_logic(m, left, right, op).st, m),
    decreases expr_size(left) + expr_size(right), 1nat,
{
    lemma_expr_extends(m, left);
    let o1 = sem_expr(m, left);
    if o1.err is None {
        lemma_expr_extends(o1.st, right);
        lemma_extends_trans(m, o1.st, sem_expr(o1.st, right).st);
    }
}

pub proof fn lemma_binary_extends(
    m: CompilerModel,
    left: TypedExpression,
    op: Seq<char>,
    right: TypedExpression,
)
    ensures
        extends(sem_binary(m, left, op, right).st, m),
    decreases expr_size(left) + expr_size(right), 1nat,
{
    lemma_expr_extends(m, left);
    let o1 = sem_expr(m, left);
    if o1.err is None {
        lemma_expr_extends(o1.st, right);
        lemma_extends_trans(m, o1.st, sem_expr(o1.st, right).st);
    }
}

pub proof fn lemma_if_extends(m: CompilerModel, condition: TypedExpression, consequence: TypedExpression)
    ensures
        extends(sem_if(m, condition, consequence).st, m),
    decreases expr_size(condition) + expr_size(consequence), 1nat,
{
    lemma_expr_extends(m, condition);
    let o1 = sem_expr(m, condition);
    if o1.err is None {
        lemma_expr_extends(o1.st, consequence);
        lemma_extends_trans(m, o1.st, sem_expr(o1.st, consequence).st);
    }
}

pub proof fn lemma_if_else_extends(
    m: CompilerModel,
    condition: TypedExpression,
    consequence: TypedExpression,
    alternative: TypedExpression,
)
    ensures
        extends(sem_if_else(m, condition, consequence, alternative).st, m),
    decreases expr_size(condition) + expr_size(consequence) + expr_size(alternative), 1nat,
{
    lemma_expr_extends(m, condition);
    let o1 = sem_expr(m, condition);
    if o1.err is None {
        lemma_expr_extends(o1.st, consequence);
        let s2 = sem_expr(o1.st, consequence).st;
        lemma_extends_trans(m, o1.st, s2);
        if sem_expr(o1.st, consequence).err is None {
            lemma_expr_extends(s2, alternative);
            lemma_extends_trans(m, s2, sem_expr(s2, alternative).st);
        }
    }
}

pub proof fn lemma_block_extends(m: CompilerModel, s: Seq<TypedStatement>, total: nat)
    ensures
        extends(sem_block(m, s, total).st, m),
    decreases stmts_size(s), 1nat,
{
    lemma_extends_refl(m);
    if s.len() > 0 {
        assert(stmt_size(s.last()) >= 1);
        lemma_block_extends(m, s.drop_last(), total);
        let o = sem_block(m, s.drop_last(), total);
        if o.err is None {
            lemma_stmt_extends(o.st, s.last(), s.len() == total);
            lemma_extends_trans(m, o.st, sem_stmt(o.st, s.last(), s.len() == total).st);
        }
    }
}

pub proof fn lemma_stmts_extends(m: CompilerModel, s: Seq<TypedStatement>)
    ensures
        extends(sem_stmts(m, s).st, m),
    decreases stmts_size(s), 1nat,
{
    lemma_extends_refl(m);
    if s.len() > 0 {
        assert(stmt_size(s.last()) >= 1);
        lemma_stmts_extends(m, s.drop_last());
        let o = sem_stmts(m, s.drop_last());
        if o.err is None {
            lemma_stmt_extends(o.st, s.last(), false);
            lemma_extends_trans(m, o.st, sem_stmt(o.st, s.last(), false).st);
        }
    }
}

pub proof fn lemma_stmt_extends(m: CompilerModel, st: TypedStatement, keep_result: bool)
    ensures
        extends(sem_stmt(m, st, keep_result).st, m),
    decreases stmt_size(st), 0nat,
{
    lemma_extends_refl(m);
    match st {
        TypedStatement::Let { value, .. } => {
            lemma_expr_extends(m, value);
        },
        TypedStatement::ExpressionStatement(e) => match e {
            TypedExpression::Function { name, params, block, .. } => match name {
                Some(n) => {
                    assert(expr_size(e) > expr_size(*block));
                    lemma_function_extends(
                        m,
                        n@,
                        param_list(m.tys, params@),
                        m.tys[spec_type_of(*block) as int],
                        *block,
                    );
                },
                None => {},
            },
            _ => {
                lemma_expr_extends(m, e);
            },
        },
        TypedStatement::Return { expr } => {
            lemma_expr_extends(m, expr);
        },
        TypedStatement::Block { statements } => {
            lemma_stmts_extends(m, statements@);
        },
        TypedStatement::While { condition, block } => {
            lemma_while_extends(m, condition, *block);
        },
        _ => {},
    }
}

pub proof fn lemma_while_extends(m: CompilerModel, condition: TypedExpression, block: TypedStatement)
    ensures
        extends(sem_while(m, condition, block).st, m),
    decreases expr_size(condition) + stmt_size(block), 1nat,
{
    lemma_expr_extends(m, condition);
    let o1 = sem_expr(m, condition);
    if o1.err is None {
        lemma_stmt_extends(o1.st, block, false);
        lemma_extends_trans(m, o1.st, sem_stmt(o1.st, block, false).st);
    }
}

pub proof fn lemma_function_extends(
    m: CompilerModel,
    name: Seq<char>,
    params: Seq<(Seq<char>, Ty)>,
    ret: Ty,
    body: TypedExpression,
)
    ensures
        extends(sem_function(m, name, params, ret, body).st, m),
    decreases expr_size(body), 1nat,
{
    let results = result_types(ret);
    let idx = m.func_count;
    let m1 = CompilerModel {
        func_indices: m.func_indices.insert(name, idx),
        locals: param_locals(params),
        next_local: params.len() as u32,
        ..declare(m, (param_types(params), results))
    };
    lemma_extends_refl(m);
    lemma_prefix_push(m.types, (param_types(params), results));
    lemma_prefix_push(m.funcs, m.types.len() as u32);
    assert(extends(m1, m));
    lemma_expr_extends(m1, body);
    let o = sem_expr(m1, body);
    lemma_extends_trans(m, m1, o.st);
    if o.err is None {
        let decls = run_lengths(collect_expr(m.tys, body));
        let instrs = o.code + default_return(results, body) + seq![
            ctrl(CtrlInstr::Return),
            ctrl(CtrlInstr::End),
        ];
        let fin = sem_function(m, name, params, ret, body).st;
        lemma_extends_refl(o.st);
        lemma_prefix_push(o.st.code, (decls, instrs));
        lemma_prefix_push(o.st.exports, (name, idx));
        assert(extends(fin, o.st));
        lemma_extends_trans(m, o.st, fin);
    }
}

/// Compiling a longer list of arguments extends compiling a prefix of it, and
/// an error in the prefix is the error of the whole list.
pub proof fn lemma_args_prefix(m: CompilerModel, s: Seq<TypedExpression>, k: int)
    requires
        0 <= k <= s.len(),
    ensures
        extends(sem_args(m, s).st, sem_args(m, s.take(k)).st),
        sem_args(m, s.take(k)).err is Some ==> sem_args(m, s) == sem_args(m, s.take(k)),
    decreases s.len(),
{
    if k == s.len() {
        assert(s.take(k) =~= s);
        lemma_extends_refl(sem_args(m, s).st);
    } else {
        lemma_args_prefix(m, s.drop_last(), k);
        assert(s.drop_last().take(k) =~= s.take(k));
        let o = sem_args(m, s.drop_last());
        if o.err is None {
            lemma_expr_extends(o.st, s.last());
            lemma_extends_trans(sem_args(m, s.take(k)).st, o.st, sem_args(m, s).st);
        }
    }
}

pub proof fn lemma_block_prefix(m: CompilerModel, s: Seq<TypedStatement>, k: int, total: nat)
    requires
        0 <= k <= s.len(),
    ensures
        extends(sem_block(m, s, total).st, sem_block(m, s.take(k), total).st),
        sem_block(m, s.take(k), total).err is Some ==> sem_block(m, s, total) == sem_block(
            m,
            s.take(k),
            total,
        ),
    decreases s.len(),
{
    if k == s.len() {
        assert(s.take(k) =~= s);
        lemma_extends_refl(sem_block(m, s, total).st);
    } else {
        lemma_block_prefix(m, s.drop_last(), k, total);
        assert(s.drop_last().take(k) =~= s.take(k));
        let o = sem_block(m, s.drop_last(), total);
        if o.err is None {
            lemma_stmt_extends(o.st, s.last(), s.len() == total);
            lemma_extends_trans(sem_block(m, s.take(k), total).st, o.st, sem_block(m, s, total).st);
        }
    }
}

pub proof fn lemma_stmts_prefix(m: CompilerModel, s: Seq<TypedStatement>, k: int)
    requires
        0 <= k <= s.len(),
    ensures
        extends(sem_stmts(m, s).st, sem_stmts(m, s.take(k)).st),
        sem_stmts(m, s.take(k)).err is Some ==> sem_stmts(m, s) == sem_stmts(m, s.take(k)),
    decreases s.len(),
{
    if k == s.len() {
        assert(s.take(k) =~= s);
        lemma_extends_refl(sem_stmts(m, s).st);
    } else {
        lemma_stmts_prefix(m, s.drop_last(), k);
        assert(s.drop_last().take(k) =~= s.take(k));
        let o = sem_stmts(m, s.drop_last());
        if o.err is None {
            lemma_stmt_extends(o.st, s.last(), false);
            lemma_extends_trans(sem_stmts(m, s.take(k)).st, o.st, sem_stmts(m, s).st);
        }
    }
}

pub proof fn lemma_program_prefix(m: CompilerModel, s: Seq<TypedStatement>, k: int)
    requires
        0 <= k <= s.len(),
    ensures
        extends(sem_program(m, s).st, sem_program(m, s.take(k)).st),
        sem_program(m, s.take(k)).err is Some ==> sem_program(m, s) == sem_program(m, s.take(k)),
    decreases s.len(),
{
    if k == s.len() {
        assert(s.take(k) =~= s);
        lemma_extends_refl(sem_program(m, s).st);
    } else {
        lemma_program_prefix(m, s.drop_last(), k);
        assert(s.drop_last().take(k) =~= s.take(k));
        let o = sem_program(m, s.drop_last());
        if o.err is None {
            lemma_stmt_extends(o.st, s.last(), false);
            lemma_extends_trans(sem_program(m, s.take(k)).st, o.st, sem_program(m, s).st);
        }
    }
}


/// The view of a list of typed parameters.
pub open spec fn params_view(v: Seq<(String, Ty)>) -> Seq<(Seq<char>, Ty)> {
    v.map_values(|p: (String, Ty)| (p.0@, p.1))
}

/// Compiling an `if` whose alternative may be absent.
pub open spec fn sem_if_value(
    m: CompilerModel,
    condition: TypedExpression,
    consequence: TypedExpression,
    alternative: Option<TypedExpression>,
) -> Outcome {
    match alternative {
        Some(alt) => sem_if_else(m, condition, consequence, alt),
        None => sem_if(m, condition, consequence),
    }
}

/// The number of nodes of a program.
pub open spec fn program_size(p: TypedNode) -> nat {
    match p {
        TypedNode::Program { statements } => stmts_size(statements@),
    }
}

pub proof fn lemma_param_list_len(tys: Seq<Ty>, params: Seq<TypedExpression>)
    ensures
        param_list(tys, params).len() <= params.len(),
        params.len() <= exprs_size(params),
    decreases params.len(),
{
    if params.len() > 0 {
        lemma_param_list_len(tys, params.drop_last());
        assert(expr_size(params.last()) >= 1);
    }
}

pub proof fn lemma_run_lengths_len(ts: Seq<WasmType>)
    ensures
        run_lengths(ts).len() <= ts.len(),
    decreases ts.len(),
{
    if ts.len() > 0 {
        lemma_run_lengths_len(ts.drop_last());
    }
}

/// A body declares at most as many locals up front as it has nodes.
pub proof fn lemma_collect_expr_len(tys: Seq<Ty>, e: TypedExpression)
    ensures
        collect_expr(tys, e).len() <= expr_size(e),
    decreases expr_size(e), 0nat,
{
    match e {
        TypedExpression::Block(stmts, _) => lemma_collect_stmts_len(tys, stmts@),
        _ => {},
    }
}

pub proof fn lemma_collect_stmts_len(tys: Seq<Ty>, s: Seq<TypedStatement>)
    ensures
        collect_stmts(tys, s).len() <= stmts_size(s),
    decreases stmts_size(s), 1nat,
{
    if s.len() > 0 {
        assert(stmt_size(s.last()) >= 1);
        lemma_collect_stmts_len(tys, s.drop_last());
        lemma_collect_stmt_len(tys, s.last());
    }
}

pub proof fn lemma_collect_stmt_len(tys: Seq<Ty>, st: TypedStatement)
    ensures
        collect_stmt(tys, st).len() <= stmt_size(st),
    decreases stmt_size(st), 0nat,
{
    match st {
        TypedStatement::Let { value, .. } => lemma_collect_expr_len(tys, value),
        TypedStatement::ExpressionStatement(e) => lemma_collect_expr_len(tys, e),
        TypedStatement::Block { statements } => lemma_collect_stmts_len(tys, statements@),
        TypedStatement::While { condition, block } => {
            lemma_collect_expr_len(tys, condition);
            lemma_collect_stmt_len(tys, *block);
        },
        TypedStatement::Return { expr } => lemma_collect_expr_len(tys, expr),
        _ => {},
    }
}


/// The top-level statements of a program.
pub open spec fn program_statements(p: TypedNode) -> Seq<TypedStatement> {
    match p {
        TypedNode::Program { statements } => statements@,
    }
}

/// Every type index in the program is below `n`.
pub open spec fn program_tys_below(p: TypedNode, n: nat) -> bool {
    stmts_tys_below(program_statements(p), n)
}


/// The local types that run-length encoded declarations stand for.
pub open spec fn expand(groups: Seq<(u32, WasmType)>) -> Seq<WasmType>
    decreases groups.len(),
{
    if groups.len() == 0 {
        seq![]
    } else {
        expand(groups.drop_last()) + Seq::new(groups.last().0 as nat, |i: int| groups.last().1)
    }
}

/// The local declarations of a function body stand for exactly its local
/// types, in order: every count is positive and neighbouring declarations
/// have different types.
pub proof fn law_run_lengths(ts: Seq<WasmType>)
    requires
        ts.len() <= u32::MAX,
    ensures
        expand(run_lengths(ts)) == ts,
        forall|i: int| 0 <= i < run_lengths(ts).len() ==> #[trigger] run_lengths(ts)[i].0 >= 1,
        forall|i: int|
            0 <= i < run_lengths(ts).len() - 1 ==> #[trigger] run_lengths(ts)[i].1 != run_lengths(
                ts,
            )[i + 1].1,
    decreases ts.len(),
{
    if ts.len() > 0 {
        let d = ts.drop_last();
        let t = ts.last();
        law_run_lengths(d);
        let g = run_lengths(d);
        if g.len() > 0 && g.last().1 == t {
            let c = g.last().0;
            assert(expand(g).len() >= c);
            let n = g.update(g.len() - 1, ((c + 1) as u32, t));
            assert(n.drop_last() =~= g.drop_last());
            assert(expand(n) =~= expand(g).push(t));
        } else {
            let n = g.push((1u32, t));
            assert(n.drop_last() =~= g);
            assert(expand(n) =~= expand(g).push(t));
        }
        assert(d.push(t) =~= ts);
    }
}

/// Declaring a function adds its signature as the next type and that type's
/// index as the next function, so the new function's index is its type's
/// index; when types and functions were in step (function `i` has type `i`),
/// they stay in step.
pub proof fn law_declare_keeps_functions_on_their_types(m: CompilerModel, sig: FuncSig)
    requires
        m.types.len() == m.funcs.len(),
        m.funcs.len() == m.func_count,
        m.func_count < u32::MAX,
        forall|i: int| 0 <= i < m.funcs.len() ==> #[trigger] m.funcs[i] == i,
    ensures
        declare(m, sig).func_count == m.func_count + 1,
        declare(m, sig).types == m.types.push(sig),
        declare(m, sig).funcs == m.funcs.push(m.func_count),
        declare(m, sig).types.len() == declare(m, sig).funcs.len(),
        declare(m, sig).funcs.len() == declare(m, sig).func_count,
        forall|i: int|
            0 <= i < declare(m, sig).funcs.len() ==> #[trigger] declare(m, sig).funcs[i] == i,
{
    let d = declare(m, sig);
    assert forall|i: int| 0 <= i < d.funcs.len() implies #[trigger] d.funcs[i] == i by {
        if i < m.funcs.len() {
            assert(d.funcs[i] == m.funcs[i]);
        }
    }
}

/// Compiling a program only appends to the module's sections and keeps the
/// type context.
pub proof fn law_program_appends(m: CompilerModel, s: Seq<TypedStatement>)
    ensures
        extends(sem_program(m, s).st, m),
{
    lemma_program_prefix(m, s, 0);
    assert(s.take(0) =~= Seq::<TypedStatement>::empty());
}

/// A function definition that compiles is declared at the next function
/// index with its parameter and result types, its body (ending in `return`
/// and `end`) is the last one in the code section, and it is exported under
/// its name with that index.
pub proof fn law_function_declared_and_exported(
    m: CompilerModel,
    name: Seq<char>,
    params: Seq<(Seq<char>, Ty)>,
    ret: Ty,
    body: TypedExpression,
)
    requires
        m.types.len() == m.func_count,
        m.funcs.len() == m.func_count,
        m.func_count < u32::MAX,
        sem_function(m, name, params, ret, body).err is None,
    ensures
        ({
            let st = sem_function(m, name, params, ret, body).st;
            &&& st.types[m.func_count as int] == (param_types(params), result_types(ret))
            &&& st.funcs[m.func_count as int] == m.func_count
            &&& st.exports.last() == (name, m.func_count)
            &&& st.code.last().0 == run_lengths(collect_expr(m.tys, body))
            &&& st.code.last().1.len() >= 2
            &&& st.code.last().1.last() == ctrl(CtrlInstr::End)
            &&& st.code.last().1[st.code.last().1.len() - 2] == ctrl(CtrlInstr::Return)
        }),
{
    let results = result_types(ret);
    let idx = m.func_count;
    let m1 = CompilerModel {
        func_indices: m.func_indices.insert(name, idx),
        locals: param_locals(params),
        next_local: params.len() as u32,
        ..declare(m, (param_types(params), results))
    };
    lemma_expr_extends(m1, body);
    let o = sem_expr(m1, body);
    assert(o.st.types.take(m1.types.len() as int) == m1.types);
    assert(o.st.types[m.func_count as int] == m1.types.take(m1.types.len() as int)[m.func_count as int]);
    assert(o.st.funcs[m.func_count as int] == m1.funcs.take(m1.funcs.len() as int)[m.func_count as int]);
}


/// Parameters are the first locals: with distinct names, parameter `i` is
/// local `i`, and no other name has a local.
pub proof fn law_params_are_first_locals(ps: Seq<(Seq<char>, Ty)>, i: int, other: Seq<char>)
    requires
        0 <= i < ps.len(),
        ps.len() <= u32::MAX,
        forall|a: int, b: int| 0 <= a < b < ps.len() ==> #[trigger] ps[a].0 != #[trigger] ps[b].0,
        forall|a: int| 0 <= a < ps.len() ==> #[trigger] ps[a].0 != other,
    ensures
        param_locals(ps).contains_key(ps[i].0),
        param_locals(ps)[ps[i].0] == i,
        !param_locals(ps).contains_key(other),
    decreases ps.len(),
{
    let d = ps.drop_last();
    assert(forall|a: int| 0 <= a < d.len() ==> #[trigger] d[a] == ps[a]);
    if d.len() > 0 {
        let j = if i < d.len() {
            i
        } else {
            0
        };
        assert forall|a: int, b: int| 0 <= a < b < d.len() implies #[trigger] d[a].0 != #[trigger] d[b].0 by {
            assert(ps[a].0 != ps[b].0);
        }
        law_params_are_first_locals(d, j, other);
        if i < d.len() {
            assert(ps[i].0 != ps[ps.len() - 1].0);
        }
    } else {
        assert(param_locals(d) == Map::<Seq<char>, u32>::empty());
    }
}


/// Each binary operator symbol is compiled to the WebAssembly instruction
/// that computes it: on every pair of operand values the instruction gives
/// what the operator gives, and a symbol that is no operator has no
/// instruction.
pub proof fn law_binop_computes_operator(op: Seq<char>, x: int, y: int)
    ensures
        binop_of(op) is None <==> ant_op(op, x, y) is None,
        binop_of(op) matches Some(b) ==> ant_op(op, x, y) == Some(eval_binop(b, x, y)),
{
}

/// Compiling an infix operation that compiles ends with one binary
/// instruction of the left operand's type that computes the operator, after
/// the code of the left operand and then of the right one; an operator
/// without an instruction is an error.
pub proof fn law_infix_ends_in_its_operator(
    m: CompilerModel,
    left: TypedExpression,
    op: Seq<char>,
    right: TypedExpression,
    x: int,
    y: int,
)
    ensures
        ({
            let o = sem_binary(m, left, op, right);
            let l = sem_expr(m, left);
            let r = sem_expr(l.st, right);
            o.err is None ==> {
                &&& l.err is None
                &&& r.err is None
                &&& o.code.len() == l.code.len() + r.code.len() + 1
                &&& o.code.take(l.code.len() as int) == l.code
                &&& o.code.subrange(l.code.len() as int, o.code.len() - 1) == r.code
                &&& o.code.last() matches Instr::Numeric(NumInstr::Binary(t, b)) && t == type_at(
                    m,
                    spec_type_of(left),
                ) && ant_op(op, x, y) == Some(eval_binop(b, x, y))
            }
        }),
        ({
            let l = sem_expr(m, left);
            let r = sem_expr(l.st, right);
            l.err is None && r.err is None && ant_op(op, x, y) is None ==> sem_binary(
                m,
                left,
                op,
                right,
            ).err == Some(unsupported_op_msg(op))
        }),
{
    let o = sem_binary(m, left, op, right);
    let l = sem_expr(m, left);
    if o.err is None {
        let r = sem_expr(l.st, right);
        let o2 = then(l, r);
        assert(o2.code.take(l.code.len() as int) =~= l.code);
        assert(o.code.take(l.code.len() as int) =~= l.code);
        assert(o.code.subrange(l.code.len() as int, o.code.len() - 1) =~= r.code);
    }
}

/// A `return` statement is compiled to the code of its expression followed
/// by a `return` instruction; an error in the expression is the statement's.
pub proof fn law_return_returns(m: CompilerModel, e: TypedExpression, keep_result: bool)
    ensures
        ({
            let o = sem_stmt(m, TypedStatement::Return { expr: e }, keep_result);
            let oe = sem_expr(m, e);
            &&& oe.err is None ==> o.err is None && o.st == oe.st && o.code == oe.code.push(
                ctrl(CtrlInstr::Return),
            )
            &&& oe.err is Some ==> o == oe
        }),
{
    let oe = sem_expr(m, e);
    assert(oe.code + seq![ctrl(CtrlInstr::Return)] =~= oe.code.push(ctrl(CtrlInstr::Return)));
}

/// The number of `let` statements in an expression that a function declares
/// locals for up front: those among the statements of a block expression.
pub open spec fn lets_in_expr(e: TypedExpression) -> nat
    decreases expr_size(e), 0nat,
{
    match e {
        TypedExpression::Block(stmts, _) => lets_in_stmts(stmts@),
        _ => 0,
    }
}

/// The number of `let` statements in a sequence of statements.
pub open spec fn lets_in_stmts(s: Seq<TypedStatement>) -> nat
    decreases stmts_size(s), 1nat,
{
    if s.len() == 0 {
        0
    } else {
        proof {
            assert(stmt_size(s.last()) >= 1);
        }
        lets_in_stmts(s.drop_last()) + lets_in_stmt(s.last())
    }
}

/// The number of `let` statements in a statement: the statement itself when
/// it is one, and those in the expressions and statements it holds, the body
/// of a `while` loop among them.
pub open spec fn lets_in_stmt(st: TypedStatement) -> nat
    decreases stmt_size(st), 0nat,
{
    match st {
        TypedStatement::Let { value, .. } => 1 + lets_in_expr(value),
        TypedStatement::ExpressionStatement(e) => lets_in_expr(e),
        TypedStatement::Return { expr } => lets_in_expr(expr),
        TypedStatement::Block { statements } => lets_in_stmts(statements@),
        TypedStatement::While { condition, block } => lets_in_expr(condition) + lets_in_stmt(*block),
        _ => 0,
    }
}

/// A local is declared up front for every `let` statement of an expression,
/// one each, `let`s in loop bodies included.
pub proof fn law_one_local_per_let(tys: Seq<Ty>, e: TypedExpression)
    ensures
        collect_expr(tys, e).len() == lets_in_expr(e),
    decreases expr_size(e), 0nat,
{
    match e {
        TypedExpression::Block(stmts, _) => law_one_local_per_let_stmts(tys, stmts@),
        _ => {},
    }
}

/// A local is declared up front for every `let` of a sequence of statements.
pub proof fn law_one_local_per_let_stmts(tys: Seq<Ty>, s: Seq<TypedStatement>)
    ensures
        collect_stmts(tys, s).len() == lets_in_stmts(s),
    decreases stmts_size(s), 1nat,
{
    if s.len() > 0 {
        assert(stmt_size(s.last()) >= 1);
        law_one_local_per_let_stmts(tys, s.drop_last());
        law_one_local_per_let_stmt(tys, s.last());
    }
}

/// A local is declared up front for every `let` of a statement.
pub proof fn law_one_local_per_let_stmt(tys: Seq<Ty>, st: TypedStatement)
    ensures
        collect_stmt(tys, st).len() == lets_in_stmt(st),
    decreases stmt_size(st), 0nat,
{
    match st {
        TypedStatement::Let { value, .. } => law_one_local_per_let(tys, value),
        TypedStatement::ExpressionStatement(e) => law_one_local_per_let(tys, e),
        TypedStatement::Block { statements } => law_one_local_per_let_stmts(tys, statements@),
        TypedStatement::While { condition, block } => {
            law_one_local_per_let(tys, condition);
            law_one_local_per_let_stmt(tys, *block);
        },
        TypedStatement::Return { expr } => law_one_local_per_let(tys, expr),
        _ => {},
    }
}

/// A function body's local declarations declare exactly one local per `let`
/// of the body (besides its parameters).
pub proof fn law_function_declares_its_lets(tys: Seq<Ty>, body: TypedExpression)
    requires
        collect_expr(tys, body).len() <= u32::MAX,
    ensures
        expand(run_lengths(collect_expr(tys, body))).len() == lets_in_expr(body),
{
    law_run_lengths(collect_expr(tys, body));
    law_one_local_per_let(tys, body);
}


/// A `let` stores its value in a fresh local slot: after the code of the
/// value comes `local.set` of the next free slot, the name refers to that
/// slot from then on, and the next free slot is one further (while slots
/// remain).
pub proof fn law_let_stores_in_a_fresh_slot(
    m: CompilerModel,
    name: String,
    value: TypedExpression,
    ty: TyId,
    keep_result: bool,
)
    ensures
        ({
            let o = sem_stmt(m, TypedStatement::Let { name, value, ty }, keep_result);
            let ov = sem_expr(m, value);
            &&& ov.err is None ==> {
                &&& o.err is None
                &&& o.code == ov.code.push(Instr::Variable(VarInstr::LocalSet(ov.st.next_local)))
                &&& o.st.locals.contains_key(name@)
                &&& o.st.locals[name@] == ov.st.next_local
                &&& ov.st.next_local < u32::MAX ==> o.st.next_local == ov.st.next_local + 1
                &&& forall|other: Seq<char>|
                    other != name@ ==> #[trigger] o.st.locals.contains_key(other)
                        == ov.st.locals.contains_key(other)
            }
            &&& ov.err is Some ==> o == ov
        }),
{
}

/// An expression statement other than a function definition gives the
/// code of its expression, followed by `drop` exactly when its value is not
/// kept and is not 32-bit.
pub proof fn law_expression_statement_drops_unkept_wide_values(
    m: CompilerModel,
    e: TypedExpression,
    keep_result: bool,
)
    requires
        !(e is Function),
    ensures
        ({
            let o = sem_stmt(m, TypedStatement::ExpressionStatement(e), keep_result);
            let oe = sem_expr(m, e);
            &&& o.st == oe.st
            &&& o.err == oe.err
            &&& oe.err is None ==> o.code == if !keep_result && type_at(m, spec_type_of(e))
                == WasmType::I64 {
                oe.code.push(Instr::Drop)
            } else {
                oe.code
            }
        }),
{
    let oe = sem_expr(m, e);
    assert(oe.code + seq![Instr::Drop] =~= oe.code.push(Instr::Drop));
}

/// A `while` loop tests its condition first and leaves the loop when it is
/// 0; otherwise its body runs and the loop starts over. Its code is
/// `loop loop <condition> i32.const 0 i32.eq br_if 1 <body> br 0 end end`.
pub proof fn law_while_tests_before_each_run(m: CompilerModel, condition: TypedExpression, block: TypedStatement)
    ensures
        ({
            let o = sem_stmt(m, TypedStatement::While { condition, block: Box::new(block) }, false);
            let oc = sem_expr(m, condition);
            let ob = sem_stmt(oc.st, block, false);
            oc.err is None && ob.err is None ==> {
                &&& o.err is None
                &&& o.st == ob.st
                &&& o.code == seq![ctrl(CtrlInstr::Loop), ctrl(CtrlInstr::Loop)] + oc.code + seq![
                    i32_const(0),
                    binary(WasmType::I32, BinOp::Eq),
                    ctrl(CtrlInstr::BrIf(1)),
                ] + ob.code + seq![ctrl(CtrlInstr::Br(0)), ctrl(CtrlInstr::End), ctrl(CtrlInstr::End)]
            }
        }),
{
    let o = sem_stmt(m, TypedStatement::While { condition, block: Box::new(block) }, false);
    let oc = sem_expr(m, condition);
    let ob = sem_stmt(oc.st, block, false);
    if oc.err is None && ob.err is None {
        assert(o.code =~= seq![ctrl(CtrlInstr::Loop), ctrl(CtrlInstr::Loop)] + oc.code + seq![
            i32_const(0),
            binary(WasmType::I32, BinOp::Eq),
            ctrl(CtrlInstr::BrIf(1)),
        ] + ob.code + seq![ctrl(CtrlInstr::Br(0)), ctrl(CtrlInstr::End), ctrl(CtrlInstr::End)]);
    }
}


/// The type ids of the `let` statements of an expression that a function
/// declares locals for up front, in source order.
pub open spec fn let_tys_in_expr(e: TypedExpression) -> Seq<TyId>
    decreases expr_size(e), 0nat,
{
    match e {
        TypedExpression::Block(stmts, _) => let_tys_in_stmts(stmts@),
        _ => seq![],
    }
}

/// The type ids of the `let` statements of a sequence of statements, in order.
pub open spec fn let_tys_in_stmts(s: Seq<TypedStatement>) -> Seq<TyId>
    decreases stmts_size(s), 1nat,
{
    if s.len() == 0 {
        seq![]
    } else {
        proof {
            assert(stmt_size(s.last()) >= 1);
        }
        let_tys_in_stmts(s.drop_last()) + let_tys_in_stmt(s.last())
    }
}

/// The type ids of the `let` statements of a statement, in source order: a
/// `let` comes before those in its value.
pub open spec fn let_tys_in_stmt(st: TypedStatement) -> Seq<TyId>
    decreases stmt_size(st), 0nat,
{
    match st {
        TypedStatement::Let { value, ty, .. } => seq![ty] + let_tys_in_expr(value),
        TypedStatement::ExpressionStatement(e) => let_tys_in_expr(e),
        TypedStatement::Return { expr } => let_tys_in_expr(expr),
        TypedStatement::Block { statements } => let_tys_in_stmts(statements@),
        TypedStatement::While { condition, block } => let_tys_in_expr(condition) + let_tys_in_stmt(
            *block,
        ),
        _ => seq![],
    }
}

/// The locals declared up front for an expression are, in source order, one
/// for each `let`, of the WebAssembly type of that `let`'s type.
pub proof fn law_locals_have_their_lets_types(tys: Seq<Ty>, e: TypedExpression)
    ensures
        collect_expr(tys, e) == let_tys_in_expr(e).map_values(|id: TyId| wasm_type_of(tys[id as int])),
    decreases expr_size(e), 0nat,
{
    match e {
        TypedExpression::Block(stmts, _) => law_locals_have_their_lets_types_stmts(tys, stmts@),
        _ => {
            assert(let_tys_in_expr(e).map_values(|id: TyId| wasm_type_of(tys[id as int])) =~= seq![]);
        },
    }
}

/// The locals declared up front for a sequence of statements are those of
/// its `let`s, in order, of their types.
pub proof fn law_locals_have_their_lets_types_stmts(tys: Seq<Ty>, s: Seq<TypedStatement>)
    ensures
        collect_stmts(tys, s) == let_tys_in_stmts(s).map_values(|id: TyId| wasm_type_of(tys[id as int])),
    decreases stmts_size(s), 1nat,
{
    let f = |id: TyId| wasm_type_of(tys[id as int]);
    if s.len() == 0 {
        assert(let_tys_in_stmts(s).map_values(f) =~= seq![]);
    } else {
        assert(stmt_size(s.last()) >= 1);
        law_locals_have_their_lets_types_stmts(tys, s.drop_last());
        law_locals_have_their_lets_types_stmt(tys, s.last());
        assert((let_tys_in_stmts(s.drop_last()) + let_tys_in_stmt(s.last())).map_values(f)
            =~= let_tys_in_stmts(s.drop_last()).map_values(f) + let_tys_in_stmt(s.last()).map_values(f));
    }
}

/// The locals declared up front for a statement are those of its `let`s, in
/// order, of their types.
pub proof fn law_locals_have_their_lets_types_stmt(tys: Seq<Ty>, st: TypedStatement)
    ensures
        collect_stmt(tys, st) == let_tys_in_stmt(st).map_values(|id: TyId| wasm_type_of(tys[id as int])),
    decreases stmt_size(st), 0nat,
{
    let f = |id: TyId| wasm_type_of(tys[id as int]);
    match st {
        TypedStatement::Let { value, ty, .. } => {
            law_locals_have_their_lets_types(tys, value);
            assert((seq![ty] + let_tys_in_expr(value)).map_values(f) =~= seq![f(ty)] + let_tys_in_expr(
                value,
            ).map_values(f));
        },
        TypedStatement::ExpressionStatement(e) => law_locals_have_their_lets_types(tys, e),
        TypedStatement::Return { expr } => law_locals_have_their_lets_types(tys, expr),
        TypedStatement::Block { statements } => law_locals_have_their_lets_types_stmts(
            tys,
            statements@,
        ),
        TypedStatement::While { condition, block } => {
            law_locals_have_their_lets_types(tys, condition);
            law_locals_have_their_lets_types_stmt(tys, *block);
            assert((let_tys_in_expr(condition) + let_tys_in_stmt(*block)).map_values(f)
                =~= let_tys_in_expr(condition).map_values(f) + let_tys_in_stmt(*block).map_values(f));
        },
        _ => {
            assert(let_tys_in_stmt(st).map_values(f) =~= seq![]);
        },
    }
}

} // verus!
