//! A WebAssembly code generator for typed programs.
use vstd::prelude::*;
use vstd::hash_map::StringHashMap;
use vstd::string::StringExecFns;
use wasm_encoder::{CodeSection, ExportSection, Function, FunctionSection, GlobalSection, TypeSection};
use crate::ast::{
    lemma_params_elem, params_tys_below,
    expr_size, expr_tys_below, exprs_size, exprs_tys_below, lemma_exprs_elem, lemma_stmts_elem,
    spec_type_of, stmt_size, stmt_tys_below, stmts_size, stmts_tys_below, IntTy, IntValue, Ty,
    TypeContext, TypedExpression, TypedNode, TypedStatement,
};
use crate::encoder::{
    code_section_entries, code_section_function, code_section_new, export_section_entries,
    export_section_export_func, export_section_new, function_instrs, function_locals,
    function_section_entries, function_section_function, function_section_new, global_section_entries,
    global_section_global, global_section_new, type_section_entries, type_section_function,
    type_section_len, type_section_new, function_new, memory_section_memory, memory_section_new,
    module_code_section, module_encoding, module_export_section, module_finish,
    module_function_section, module_global_section, module_memory_section, module_new,
    module_sections, module_type_section,
};
use crate::encoder::function_instruction;
use crate::text::str_eq;
use crate::wasm::{ctrl, wasm_header, BinOp, BlockResult, CtrlInstr, Instr, NumInstr, VarInstr, WasmType};
use crate::wasm_gen_spec::{
    binop_of, collect_expr, collect_stmt, collect_stmts, declare, default_return, extends, heap_global, initial_model, int_bits,
    lemma_args_prefix, lemma_block_prefix, lemma_collect_expr_len, lemma_expr_extends,
    lemma_extends_refl, lemma_extends_trans, lemma_param_list_len, lemma_prefix_push,
    lemma_run_lengths_len, lemma_stmt_extends, lemma_stmts_prefix, lemma_within_limits_prefix,
    param_list, param_locals, param_types, params_view, read_var, realizes, result_types, run_lengths,
    sem_args, sem_binary, sem_block, sem_expr, sem_function, sem_if_value, sem_logic, sem_stmt,
    sem_stmts, sem_while, then, wasm_type_of, within_limits, CompilerModel, compile_result,
    lemma_program_prefix, module_layout, program_outcome, program_size, program_statements,
    program_tys_below, sem_program, Outcome,
};

verus! {

/// Compiles a typed program into a WebAssembly module.
pub struct WasmCompiler {
    types: TypeSection,
    funcs: FunctionSection,
    code: CodeSection,
    globals: GlobalSection,
    exports: ExportSection,
    tcx: TypeContext,
    func_count: u32,
    locals: StringHashMap<u32>,
    next_local: u32,
    func_indices: StringHashMap<u32>,
}

impl View for WasmCompiler {
    type V = CompilerModel;

    closed spec fn view(&self) -> CompilerModel {
        CompilerModel {
            types: type_section_entries(self.types),
            funcs: function_section_entries(self.funcs),
            code: code_section_entries(self.code),
            globals: global_section_entries(self.globals),
            exports: export_section_entries(self.exports),
            tys: self.tcx@,
            func_count: self.func_count,
            locals: self.locals@,
            next_local: self.next_local,
            func_indices: self.func_indices@,
        }
    }
}

/// The bit pattern of an integer literal as an `i64`.
fn int_value_to_imm(v: IntValue) -> (bits: i64)
    ensures
        bits == int_bits(v),
{
    match v {
        IntValue::I8(x) => x as i64,
        IntValue::I16(x) => x as i64,
        IntValue::I32(x) => x as i64,
        IntValue::I64(x) => x,
        IntValue::U8(x) => x as i64,
        IntValue::U16(x) => x as i64,
        IntValue::U32(x) => x as i64,
        IntValue::U64(x) => x as i64,
    }
}

/// Run-length encodes local types into `(count, type)` declarations.
fn group_locals(local_types: &Vec<WasmType>) -> (decls: Vec<(u32, WasmType)>)
    requires
        local_types@.len() <= u32::MAX,
    ensures
        decls@ == run_lengths(local_types@),
{
    let mut decls: Vec<(u32, WasmType)> = Vec::new();
    if local_types.len() == 0 {
        return decls;
    }
    let mut current_type = local_types[0];
    let mut count: u32 = 1;
    let mut i: usize = 1;
    assert(local_types@.take(1).drop_last() =~= Seq::<WasmType>::empty());
    assert(run_lengths(local_types@.take(1).drop_last()) =~= Seq::<(u32, WasmType)>::empty());
    assert(run_lengths(local_types@.take(1)) =~= seq![(1u32, local_types@[0])]);
    while i < local_types.len()
        invariant
            local_types@.len() <= u32::MAX,
            1 <= i <= local_types@.len(),
            1 <= count <= i,
            decls@.push((count, current_type)) == run_lengths(local_types@.take(i as int)),
            decls@.len() == 0 || decls@.last().1 != current_type,
        decreases local_types@.len() - i,
    {
        let ty = local_types[i];
        assert(local_types@.take(i + 1).drop_last() =~= local_types@.take(i as int));
        if ty == current_type {
            count += 1;
            assert(decls@.push((count, current_type)) =~= decls@.push(((count - 1) as u32, current_type)).update(
                decls@.len() as int,
                (count, current_type),
            ));
        } else {
            decls.push((count, current_type));
            current_type = ty;
            count = 1;
        }
        i += 1;
    }
    decls.push((count, current_type));
    assert(local_types@.take(local_types@.len() as int) =~= local_types@);
    decls
}

impl WasmCompiler {
    /// The internal consistency of the compiler's sections and counters.
    pub closed spec fn wf(&self) -> bool {
        &&& type_section_entries(self.types).len() == self.func_count
        &&& function_section_entries(self.funcs).len() == self.func_count
        &&& forall|i: int|
            0 <= i < function_section_entries(self.funcs).len() ==> #[trigger] function_section_entries(
                self.funcs,
            )[i] == i
    }

    /// A compiler with empty sections over the type context `tcx`.
    pub fn new(tcx: TypeContext) -> (c: Self)
        ensures
            c.wf(),
            c@ == initial_model(tcx@),
    {
        let c = WasmCompiler {
            types: type_section_new(),
            funcs: function_section_new(),
            code: code_section_new(),
            globals: global_section_new(),
            exports: export_section_new(),
            tcx,
            func_count: 0,
            locals: StringHashMap::new(),
            next_local: 0,
            func_indices: StringHashMap::new(),
        };
        assert(c@ =~= initial_model(tcx@));
        c
    }

    fn ty_to_wasm(&self, ty: &Ty) -> (t: WasmType)
        ensures
            t == wasm_type_of(*ty),
    {
        match ty {
            Ty::IntTy(int_ty) => match int_ty {
                IntTy::I64 | IntTy::U64 => WasmType::I64,
                _ => WasmType::I32,
            },
            _ => WasmType::I32,
        }
    }

    /// Declares a function of type `params -> results` and returns its index.
    fn declare_function(&mut self, params: &Vec<WasmType>, results: &Vec<WasmType>) -> (idx: u32)
        requires
            old(self).wf(),
            old(self).func_count < u32::MAX,
            params@.len() <= u32::MAX,
            results@.len() <= u32::MAX,
        ensures
            final(self).wf(),
            idx == old(self).func_count,
            final(self)@ == crate::wasm_gen_spec::declare(old(self)@, (params@, results@)),
    {
        let type_idx = type_section_len(&self.types);
        type_section_function(&mut self.types, params, results);
        let func_idx = self.func_count;
        self.func_count += 1;
        function_section_function(&mut self.funcs, type_idx);
        proof {
            assert(self@ =~= crate::wasm_gen_spec::declare(old(self)@, (params@, results@)));
        }
        func_idx
    }

    /// Adds the heap pointer global.
    fn add_heap_global(&mut self)
        requires
            old(self).wf(),
            old(self)@.globals.len() < u32::MAX,
        ensures
            final(self).wf(),
            final(self)@ == (CompilerModel {
                globals: old(self)@.globals.push(heap_global()),
                ..old(self)@
            }),
    {
        global_section_global(&mut self.globals, WasmType::I32, true, 1024);
        proof {
            assert(self@ =~= (CompilerModel { globals: old(self)@.globals.push(heap_global()), ..old(self)@ }));
        }
    }

    /// Appends the types of the locals that `expr` declares up front.
    fn collect_local_types(&self, expr: &TypedExpression, locals: &mut Vec<WasmType>) -> (r: Result<(), String>)
        requires
            expr_tys_below(*expr, self@.tys.len()),
        ensures
            r is Ok,
            final(locals)@ == old(locals)@ + collect_expr(self@.tys, *expr),
        decreases expr_size(*expr), 0nat,
    {
        match expr {
            TypedExpression::Block(stmts, _) => {
                let mut i: usize = 0;
                while i < stmts.len()
                    invariant
                        i <= stmts@.len(),
                        stmts_tys_below(stmts@, self@.tys.len()),
                        stmts_size(stmts@) < expr_size(*expr),
                        *expr == TypedExpression::Block(*stmts, spec_type_of(*expr)),
                        locals@ == old(locals)@ + collect_stmts(self@.tys, stmts@.take(i as int)),
                    decreases stmts@.len() - i,
                {
                    proof {
                        lemma_stmts_elem(stmts@, i as int, self@.tys.len());
                        assert(stmts@.take(i + 1).drop_last() =~= stmts@.take(i as int));
                        assert(stmts@.take(i + 1).last() == stmts@[i as int]);
                    }
                    self.collect_local_types_stmt(&stmts[i], locals)?;
                    i += 1;
                }
                assert(stmts@.take(stmts@.len() as int) =~= stmts@);
            },
            _ => {},
        }
        Ok(())
    }

    fn collect_local_types_stmt(&self, stmt: &TypedStatement, locals: &mut Vec<WasmType>) -> (r: Result<(), String>)
        requires
            stmt_tys_below(*stmt, self@.tys.len()),
        ensures
            r is Ok,
            final(locals)@ == old(locals)@ + collect_stmt(self@.tys, *stmt),
        decreases stmt_size(*stmt), 0nat,
    {
        match stmt {
            TypedStatement::Let { value, ty, .. } => {
                let t = self.ty_to_wasm(self.tcx.get(*ty));
                locals.push(t);
                self.collect_local_types(value, locals)?;
            },
            TypedStatement::ExpressionStatement(expr) => {
                self.collect_local_types(expr, locals)?;
            },
            TypedStatement::Block { statements } => {
                let mut i: usize = 0;
                while i < statements.len()
                    invariant
                        i <= statements@.len(),
                        stmts_tys_below(statements@, self@.tys.len()),
                        stmts_size(statements@) < stmt_size(*stmt),
                        *stmt == (TypedStatement::Block { statements: *statements }),
                        locals@ == old(locals)@ + collect_stmts(self@.tys, statements@.take(i as int)),
                    decreases statements@.len() - i,
                {
                    proof {
                        lemma_stmts_elem(statements@, i as int, self@.tys.len());
                        assert(statements@.take(i + 1).drop_last() =~= statements@.take(i as int));
                        assert(statements@.take(i + 1).last() == statements@[i as int]);
                    }
                    self.collect_local_types_stmt(&statements[i], locals)?;
                    i += 1;
                }
                assert(statements@.take(statements@.len() as int) =~= statements@);
            },
            TypedStatement::While { condition, block } => {
                self.collect_local_types(condition, locals)?;
                self.collect_local_types_stmt(block, locals)?;
            },
            TypedStatement::Return { expr } => {
                self.collect_local_types(expr, locals)?;
            },
            _ => {},
        }
        Ok(())
    }

    /// Compiles an expression, writing its instructions into `func`.
    fn compile_expr(&mut self, func: &mut Function, expr: &TypedExpression) -> (r: Result<(), String>)
        requires
            old(self).wf(),
            expr_tys_below(*expr, old(self)@.tys.len()),
            old(self).next_local + expr_size(*expr) <= u32::MAX,
            old(self).func_count + expr_size(*expr) <= u32::MAX,
            within_limits(sem_expr(old(self)@, *expr).st),
        ensures
            final(self).wf(),
            final(self)@.tys == old(self)@.tys,
            final(self)@ == sem_expr(old(self)@, *expr).st,
            function_locals(*final(func)) == function_locals(*old(func)),
            function_instrs(*final(func)) == function_instrs(*old(func)) + sem_expr(
                old(self)@,
                *expr,
            ).code,
            realizes(r, sem_expr(old(self)@, *expr)),
            final(self).next_local <= old(self).next_local + expr_size(*expr),
            final(self).func_count <= old(self).func_count + expr_size(*expr),
        decreases expr_size(*expr), 2nat,
    {
        match expr {
            TypedExpression::Int { value, ty } => {
                let wasm_ty = self.ty_to_wasm(self.tcx.get(*ty));
                match wasm_ty {
                    WasmType::I32 => {
                        function_instruction(
                            func,
                            Instr::Numeric(NumInstr::I32Const(int_value_to_imm(*value) as i32)),
                        );
                    },
                    WasmType::I64 => {
                        function_instruction(
                            func,
                            Instr::Numeric(NumInstr::I64Const(int_value_to_imm(*value))),
                        );
                    },
                }
            },
            TypedExpression::Bool { value, .. } => {
                function_instruction(func, Instr::Numeric(NumInstr::I32Const(if *value { 1 } else { 0 })));
            },
            TypedExpression::Ident(ident, _) => {
                self.compile_read_var(func, ident.as_str());
            },
            TypedExpression::TypeHint(ident, _) => {
                self.compile_read_var(func, ident.as_str());
            },
            TypedExpression::Call { .. } => {
                return self.compile_call(func, expr);
            },
            TypedExpression::Infix { left, op, right, .. } => {
                return self.compile_binary(func, left, op.as_str(), right);
            },
            TypedExpression::Block(..) => {
                return self.compile_block(func, expr);
            },
            TypedExpression::BoolAnd { left, right, .. } => {
                return self.compile_logic(func, left, right, BinOp::And);
            },
            TypedExpression::BoolOr { left, right, .. } => {
                return self.compile_logic(func, left, right, BinOp::Or);
            },
            TypedExpression::If { condition, consequence, else_block, .. } => {
                let alternative: Option<&TypedExpression> = match else_block {
                    Some(b) => Some(&**b),
                    None => None,
                };
                return self.compile_if_value(func, condition, consequence, alternative);
            },
            _ => {
                function_instruction(func, Instr::Numeric(NumInstr::I32Const(0)));
            },
        }
        Ok(())
    }

    /// Reads a variable: its local slot, or 0 if it has none.
    fn compile_read_var(&self, func: &mut Function, name: &str)
        ensures
            function_locals(*final(func)) == function_locals(*old(func)),
            function_instrs(*final(func)) == function_instrs(*old(func)).push(read_var(self@, name@)),
    {
        match self.locals.get(name) {
            Some(local_idx) => {
                function_instruction(func, Instr::Variable(VarInstr::LocalGet(*local_idx)));
            },
            None => {
                function_instruction(func, Instr::Numeric(NumInstr::I32Const(0)));
            },
        }
    }

    /// Compiles a call: the arguments, then a call of the named function.
    /// `printf` without a definition drops its arguments and yields 0.
    fn compile_call(&mut self, func: &mut Function, expr: &TypedExpression) -> (r: Result<(), String>)
        requires
            expr is Call,
            old(self).wf(),
            expr_tys_below(*expr, old(self)@.tys.len()),
            old(self).next_local + expr_size(*expr) <= u32::MAX,
            old(self).func_count + expr_size(*expr) <= u32::MAX,
            within_limits(sem_expr(old(self)@, *expr).st),
        ensures
            final(self).wf(),
            final(self)@.tys == old(self)@.tys,
            final(self)@ == sem_expr(old(self)@, *expr).st,
            function_locals(*final(func)) == function_locals(*old(func)),
            function_instrs(*final(func)) == function_instrs(*old(func)) + sem_expr(
                old(self)@,
                *expr,
            ).code,
            realizes(r, sem_expr(old(self)@, *expr)),
            final(self).next_local <= old(self).next_local + expr_size(*expr),
            final(self).func_count <= old(self).func_count + expr_size(*expr),
        decreases expr_size(*expr), 1nat,
    {
        let ghost m0 = self@;
        let ghost instrs0 = function_instrs(*func);
        match expr {
            TypedExpression::Call { func: call_func, args, .. } => {
                let mut i: usize = 0;
                proof {
                    assert(args@.take(0) =~= Seq::<TypedExpression>::empty());
                    assert(sem_expr(m0, *expr).st == sem_args(m0, args@).st);
                    assert(sem_args(m0, args@).err is Some ==> sem_expr(m0, *expr) == sem_args(m0, args@));
                }
                while i < args.len()
                    invariant
                        m0 == old(self)@,
                        instrs0 == function_instrs(*old(func)),
                        self.wf(),
                        i <= args@.len(),
                        exprs_tys_below(args@, m0.tys.len()),
                        self@.tys == m0.tys,
                        exprs_size(args@) < expr_size(*expr),
                        m0.next_local + expr_size(*expr) <= u32::MAX,
                        m0.func_count + expr_size(*expr) <= u32::MAX,
                        within_limits(sem_args(m0, args@).st),
                        sem_args(m0, args@).err is Some ==> sem_expr(m0, *expr) == sem_args(m0, args@),
                        sem_args(m0, args@.take(i as int)).err is None,
                        self@ == sem_args(m0, args@.take(i as int)).st,
                        function_instrs(*func) == instrs0 + sem_args(m0, args@.take(i as int)).code,
                        function_locals(*func) == function_locals(*old(func)),
                        self.next_local <= m0.next_local + exprs_size(args@.take(i as int)),
                        self.func_count <= m0.func_count + exprs_size(args@.take(i as int)),
                    decreases args@.len() - i,
                {
                    proof {
                        lemma_exprs_elem(args@, i as int, m0.tys.len());
                        lemma_args_prefix(m0, args@, i + 1);
                        assert(args@.take(i + 1).drop_last() =~= args@.take(i as int));
                        assert(args@.take(i + 1).last() == args@[i as int]);
                        let oi = sem_args(m0, args@.take(i as int));
                        assert(sem_args(m0, args@.take(i + 1)) == then(
                            oi,
                            sem_expr(oi.st, args@[i as int]),
                        ));
                        lemma_within_limits_prefix(sem_args(m0, args@).st, sem_args(m0, args@.take(i + 1)).st);
                    }
                    let res = self.compile_expr(func, &args[i]);
                    match res {
                        Ok(()) => {},
                        Err(e) => {
                            return Err(e);
                        },
                    }
                    i += 1;
                }
                proof {
                    assert(args@.take(args@.len() as int) =~= args@);
                }
                match &**call_func {
                    TypedExpression::Ident(ident, _) => {
                        let func_name = ident.as_str();
                        match self.func_indices.get(func_name) {
                            Some(func_idx) => {
                                function_instruction(func, Instr::Control(CtrlInstr::Call(*func_idx)));
                            },
                            None => {
                                if str_eq(func_name, "printf") {
                                    let mut j: usize = 0;
                                    let ghost base = function_instrs(*func);
                                    while j < args.len()
                                        invariant
                                            j <= args@.len(),
                                            function_locals(*func) == function_locals(*old(func)),
                                            function_instrs(*func) == base + Seq::new(
                                                j as nat,
                                                |k: int| Instr::Drop,
                                            ),
                                        decreases args@.len() - j,
                                    {
                                        function_instruction(func, Instr::Drop);
                                        j += 1;
                                        proof {
                                            assert(base + Seq::new(j as nat, |k: int| Instr::Drop) =~= (base + Seq::new(
                                                (j - 1) as nat,
                                                |k: int| Instr::Drop,
                                            )).push(Instr::Drop));
                                        }
                                    }
                                    function_instruction(func, Instr::Numeric(NumInstr::I32Const(0)));
                                } else {
                                    let mut msg = String::from_str("Unknown function: ");
                                    msg.append(func_name);
                                    return Err(msg);
                                }
                            },
                        }
                    },
                    _ => {},
                }
                Ok(())
            },
            _ => {
                Ok(())
            },
        }
    }

    /// Compiles `left && right` or `left || right` as a bitwise `i32` operation.
    fn compile_logic(
        &mut self,
        func: &mut Function,
        left: &TypedExpression,
        right: &TypedExpression,
        op: BinOp,
    ) -> (r: Result<(), String>)
        requires
            old(self).wf(),
            expr_tys_below(*left, old(self)@.tys.len()),
            expr_tys_below(*right, old(self)@.tys.len()),
            old(self).next_local + expr_size(*left) + expr_size(*right) <= u32::MAX,
            old(self).func_count + expr_size(*left) + expr_size(*right) <= u32::MAX,
            within_limits(sem_logic(old(self)@, *left, *right, op).st),
        ensures
            final(self).wf(),
            final(self)@.tys == old(self)@.tys,
            final(self)@ == sem_logic(old(self)@, *left, *right, op).st,
            function_locals(*final(func)) == function_locals(*old(func)),
            function_instrs(*final(func)) == function_instrs(*old(func)) + sem_logic(
                old(self)@,
                *left,
                *right,
                op,
            ).code,
            realizes(r, sem_logic(old(self)@, *left, *right, op)),
            final(self).next_local <= old(self).next_local + expr_size(*left) + expr_size(*right),
            final(self).func_count <= old(self).func_count + expr_size(*left) + expr_size(*right),
        decreases expr_size(*left) + expr_size(*right), 1nat,
    {
        let ghost m0 = self@;
        proof {
            let o1 = sem_expr(m0, *left);
            if o1.err is None {
                lemma_expr_extends(o1.st, *right);
            }
            lemma_extends_refl(o1.st);
            lemma_within_limits_prefix(sem_logic(m0, *left, *right, op).st, o1.st);
        }
        self.compile_expr(func, left)?;
        self.compile_expr(func, right)?;
        function_instruction(func, Instr::Numeric(NumInstr::Binary(WasmType::I32, op)));
        Ok(())
    }

    /// Compiles `left op right` at the wasm type of `left`.
    fn compile_binary(
        &mut self,
        func: &mut Function,
        left: &TypedExpression,
        op: &str,
        right: &TypedExpression,
    ) -> (r: Result<(), String>)
        requires
            old(self).wf(),
            spec_type_of(*left) < old(self)@.tys.len(),
            expr_tys_below(*left, old(self)@.tys.len()),
            expr_tys_below(*right, old(self)@.tys.len()),
            old(self).next_local + expr_size(*left) + expr_size(*right) <= u32::MAX,
            old(self).func_count + expr_size(*left) + expr_size(*right) <= u32::MAX,
            within_limits(sem_binary(old(self)@, *left, op@, *right).st),
        ensures
            final(self).wf(),
            final(self)@.tys == old(self)@.tys,
            final(self)@ == sem_binary(old(self)@, *left, op@, *right).st,
            function_locals(*final(func)) == function_locals(*old(func)),
            function_instrs(*final(func)) == function_instrs(*old(func)) + sem_binary(
                old(self)@,
                *left,
                op@,
                *right,
            ).code,
            realizes(r, sem_binary(old(self)@, *left, op@, *right)),
            final(self).next_local <= old(self).next_local + expr_size(*left) + expr_size(*right),
            final(self).func_count <= old(self).func_count + expr_size(*left) + expr_size(*right),
        decreases expr_size(*left) + expr_size(*right), 1nat,
    {
        let ghost m0 = self@;
        proof {
            let o1 = sem_expr(m0, *left);
            if o1.err is None {
                lemma_expr_extends(o1.st, *right);
            }
            lemma_extends_refl(o1.st);
            lemma_within_limits_prefix(sem_binary(m0, *left, op@, *right).st, o1.st);
        }
        self.compile_expr(func, left)?;
        self.compile_expr(func, right)?;
        let wasm_ty = self.ty_to_wasm(self.tcx.get(left.get_type()));
        match binop_from_str(op) {
            Some(b) => {
                function_instruction(func, Instr::Numeric(NumInstr::Binary(wasm_ty, b)));
            },
            None => {
                let mut msg = String::from_str("Unsupported binary operator: ");
                msg.append(op);
                return Err(msg);
            },
        }
        Ok(())
    }

    /// Compiles an `if` as a value of the consequence's wasm type when it has an
    /// alternative, and as a statement when it has none.
    fn compile_if_value(
        &mut self,
        func: &mut Function,
        condition: &TypedExpression,
        consequence: &TypedExpression,
        alternative: Option<&TypedExpression>,
    ) -> (r: Result<(), String>)
        requires
            old(self).wf(),
            expr_tys_below(*condition, old(self)@.tys.len()),
            spec_type_of(*consequence) < old(self)@.tys.len(),
            expr_tys_below(*consequence, old(self)@.tys.len()),
            alternative matches Some(a) ==> expr_tys_below(*a, old(self)@.tys.len()),
            old(self).next_local + expr_size(*condition) + expr_size(*consequence) + opt_size(
                alternative,
            ) <= u32::MAX,
            old(self).func_count + expr_size(*condition) + expr_size(*consequence) + opt_size(
                alternative,
            ) <= u32::MAX,
            within_limits(
                sem_if_value(old(self)@, *condition, *consequence, opt_expr(alternative)).st,
            ),
        ensures
            final(self).wf(),
            final(self)@.tys == old(self)@.tys,
            final(self)@ == sem_if_value(
                old(self)@,
                *condition,
                *consequence,
                opt_expr(alternative),
            ).st,
            function_locals(*final(func)) == function_locals(*old(func)),
            function_instrs(*final(func)) == function_instrs(*old(func)) + sem_if_value(
                old(self)@,
                *condition,
                *consequence,
                opt_expr(alternative),
            ).code,
            realizes(r, sem_if_value(old(self)@, *condition, *consequence, opt_expr(alternative))),
            final(self).next_local <= old(self).next_local + expr_size(*condition) + expr_size(
                *consequence,
            ) + opt_size(alternative),
            final(self).func_count <= old(self).func_count + expr_size(*condition) + expr_size(
                *consequence,
            ) + opt_size(alternative),
        decreases expr_size(*condition) + expr_size(*consequence) + opt_size(alternative), 1nat,
    {
        let ghost m0 = self@;
        let ghost fin = sem_if_value(m0, *condition, *consequence, opt_expr(alternative)).st;
        let result_ty = self.ty_to_wasm(self.tcx.get(consequence.get_type()));
        proof {
            let o1 = sem_expr(m0, *condition);
            lemma_extends_refl(o1.st);
            if o1.err is None {
                lemma_expr_extends(o1.st, *consequence);
                let o2 = sem_expr(o1.st, *consequence);
                lemma_extends_refl(o2.st);
                match alternative {
                    Some(a) => {
                        if o2.err is None {
                            lemma_expr_extends(o2.st, *a);
                            lemma_extends_refl(fin);
                            lemma_extends_trans(o2.st, sem_expr(o2.st, *a).st, fin);
                        }
                    },
                    None => {},
                }
                lemma_extends_trans(o1.st, o2.st, fin);
                lemma_within_limits_prefix(fin, o2.st);
            }
            lemma_within_limits_prefix(fin, o1.st);
        }
        self.compile_expr(func, condition)?;
        match alternative {
            Some(alt) => {
                function_instruction(func, Instr::Control(CtrlInstr::If(BlockResult::Result(result_ty))));
                self.compile_expr(func, consequence)?;
                function_instruction(func, Instr::Control(CtrlInstr::Else));
                self.compile_expr(func, alt)?;
                function_instruction(func, Instr::Control(CtrlInstr::End));
            },
            None => {
                function_instruction(func, Instr::Control(CtrlInstr::If(BlockResult::Empty)));
                self.compile_expr(func, consequence)?;
                function_instruction(func, Instr::Control(CtrlInstr::End));
            },
        }
        Ok(())
    }

    /// Compiles the statements of a block expression; only the last is
    /// compiled with `keep_result` set, so it alone may leave its value.
    fn compile_block(&mut self, func: &mut Function, expr: &TypedExpression) -> (r: Result<(), String>)
        requires
            expr is Block,
            old(self).wf(),
            expr_tys_below(*expr, old(self)@.tys.len()),
            old(self).next_local + expr_size(*expr) <= u32::MAX,
            old(self).func_count + expr_size(*expr) <= u32::MAX,
            within_limits(sem_expr(old(self)@, *expr).st),
        ensures
            final(self).wf(),
            final(self)@.tys == old(self)@.tys,
            final(self)@ == sem_expr(old(self)@, *expr).st,
            function_locals(*final(func)) == function_locals(*old(func)),
            function_instrs(*final(func)) == function_instrs(*old(func)) + sem_expr(
                old(self)@,
                *expr,
            ).code,
            realizes(r, sem_expr(old(self)@, *expr)),
            final(self).next_local <= old(self).next_local + expr_size(*expr),
            final(self).func_count <= old(self).func_count + expr_size(*expr),
        decreases expr_size(*expr), 1nat,
    {
        let ghost m0 = self@;
        let ghost instrs0 = function_instrs(*func);
        match expr {
            TypedExpression::Block(statements, _) => {
                let ghost total = statements@.len();
                let mut i: usize = 0;
                proof {
                    assert(statements@.take(0) =~= Seq::<TypedStatement>::empty());
                }
                while i < statements.len()
                    invariant
                        m0 == old(self)@,
                        instrs0 == function_instrs(*old(func)),
                        self.wf(),
                        i <= statements@.len(),
                        total == statements@.len(),
                        stmts_tys_below(statements@, m0.tys.len()),
                        self@.tys == m0.tys,
                        stmts_size(statements@) < expr_size(*expr),
                        m0.next_local + expr_size(*expr) <= u32::MAX,
                        m0.func_count + expr_size(*expr) <= u32::MAX,
                        sem_expr(m0, *expr) == sem_block(m0, statements@, total),
                        within_limits(sem_block(m0, statements@, total).st),
                        sem_block(m0, statements@.take(i as int), total).err is None,
                        self@ == sem_block(m0, statements@.take(i as int), total).st,
                        function_instrs(*func) == instrs0 + sem_block(
                            m0,
                            statements@.take(i as int),
                            total,
                        ).code,
                        function_locals(*func) == function_locals(*old(func)),
                        self.next_local <= m0.next_local + stmts_size(statements@.take(i as int)),
                        self.func_count <= m0.func_count + stmts_size(statements@.take(i as int)),
                    decreases statements@.len() - i,
                {
                    proof {
                        lemma_stmts_elem(statements@, i as int, m0.tys.len());
                        lemma_block_prefix(m0, statements@, i + 1, total);
                        assert(statements@.take(i + 1).drop_last() =~= statements@.take(i as int));
                        assert(statements@.take(i + 1).last() == statements@[i as int]);
                        let oi = sem_block(m0, statements@.take(i as int), total);
                        assert(sem_block(m0, statements@.take(i + 1), total) == then(
                            oi,
                            sem_stmt(oi.st, statements@[i as int], i + 1 == total),
                        ));
                        lemma_within_limits_prefix(
                            sem_block(m0, statements@, total).st,
                            sem_block(m0, statements@.take(i + 1), total).st,
                        );
                    }
                    let keep_result = i == statements.len() - 1;
                    self.compile_stmt(func, &statements[i], keep_result)?;
                    i += 1;
                }
                proof {
                    assert(statements@.take(statements@.len() as int) =~= statements@);
                }
            },
            _ => {},
        }
        Ok(())
    }

    /// Compiles a statement. An expression statement whose value is not kept
    /// and is not 32-bit is dropped; a named function definition is compiled
    /// as a function of the module.
    fn compile_stmt(&mut self, func: &mut Function, stmt: &TypedStatement, keep_result: bool) -> (r:
        Result<(), String>)
        requires
            old(self).wf(),
            stmt_tys_below(*stmt, old(self)@.tys.len()),
            old(self).next_local + stmt_size(*stmt) <= u32::MAX,
            old(self).func_count + stmt_size(*stmt) <= u32::MAX,
            within_limits(sem_stmt(old(self)@, *stmt, keep_result).st),
        ensures
            final(self).wf(),
            final(self)@.tys == old(self)@.tys,
            final(self)@ == sem_stmt(old(self)@, *stmt, keep_result).st,
            function_locals(*final(func)) == function_locals(*old(func)),
            function_instrs(*final(func)) == function_instrs(*old(func)) + sem_stmt(
                old(self)@,
                *stmt,
                keep_result,
            ).code,
            realizes(r, sem_stmt(old(self)@, *stmt, keep_result)),
            final(self).next_local <= old(self).next_local + stmt_size(*stmt),
            final(self).func_count <= old(self).func_count + stmt_size(*stmt),
        decreases stmt_size(*stmt), 2nat,
    {
        let ghost m0 = self@;
        let ghost fin = sem_stmt(m0, *stmt, keep_result).st;
        match stmt {
            TypedStatement::Let { name, value, .. } => {
                proof {
                    lemma_extends_refl(sem_expr(m0, *value).st);
                    lemma_within_limits_prefix(fin, sem_expr(m0, *value).st);
                }
                self.compile_expr(func, value)?;
                let local_idx = self.next_local;
                self.next_local += 1;
                self.locals.insert(name.clone(), local_idx);
                function_instruction(func, Instr::Variable(VarInstr::LocalSet(local_idx)));
                proof {
                    assert(self@ =~= fin);
                }
            },
            TypedStatement::ExpressionStatement(expr) => {
                match expr {
                    TypedExpression::Function { name, params, block: block_ast, .. } => {
                        match name {
                            Some(ident) => {
                                proof {
                                    assert(expr_tys_below(*expr, m0.tys.len()));
                                }
                                let mut typed_params: Vec<(String, Ty)> = Vec::new();
                                let mut j: usize = 0;
                                proof {
                                    assert(params@.take(0) =~= Seq::<TypedExpression>::empty());
                                    assert(params_view(typed_params@) =~= Seq::<(Seq<char>, Ty)>::empty());
                                }
                                while j < params.len()
                                    invariant
                                        j <= params@.len(),
                                        exprs_tys_below(params@, m0.tys.len()),
                                        params_tys_below(params@, m0.tys.len()),
                                        self@ == m0,
                                        params_view(typed_params@) == param_list(
                                            m0.tys,
                                            params@.take(j as int),
                                        ),
                                    decreases params@.len() - j,
                                {
                                    proof {
                                        lemma_exprs_elem(params@, j as int, m0.tys.len());
                                        assert(params@.take(j + 1).drop_last() =~= params@.take(j as int));
                                        assert(params@.take(j + 1).last() == params@[j as int]);
                                    }
                                    match &params[j] {
                                        TypedExpression::TypeHint(p_ident, ty) => {
                                            proof {
                                                lemma_params_elem(params@, j as int, m0.tys.len());
                                            }
                                            let t = *self.tcx.get(*ty);
                                            typed_params.push((p_ident.clone(), t));
                                            proof {
                                                assert(params_view(typed_params@) =~= param_list(
                                                    m0.tys,
                                                    params@.take(j + 1),
                                                ));
                                            }
                                        },
                                        _ => {},
                                    }
                                    j += 1;
                                }
                                proof {
                                    assert(params@.take(params@.len() as int) =~= params@);
                                    lemma_param_list_len(m0.tys, params@);
                                    assert(expr_tys_below(**block_ast, m0.tys.len()));
                                    assert(stmt_size(*stmt) == 1 + expr_size(*expr));
                                    assert(expr_size(*expr) == 1 + exprs_size(params@) + expr_size(**block_ast));
                                }
                                let return_type = *self.tcx.get(block_ast.get_type());
                                self.compile_function(ident.as_str(), &typed_params, &return_type, block_ast)?;
                            },
                            None => {},
                        }
                    },
                    _ => {
                        proof {
                            lemma_extends_refl(sem_expr(m0, *expr).st);
                            lemma_within_limits_prefix(fin, sem_expr(m0, *expr).st);
                            assert(expr_tys_below(*expr, m0.tys.len()));
                            assert(spec_type_of(*expr) < m0.tys.len());
                        }
                        self.compile_expr(func, expr)?;
                        if !keep_result && self.ty_to_wasm(self.tcx.get(expr.get_type()))
                            != WasmType::I32 {
                            function_instruction(func, Instr::Drop);
                        }
                    },
                }
            },
            TypedStatement::Return { expr } => {
                proof {
                    lemma_extends_refl(sem_expr(m0, *expr).st);
                    lemma_within_limits_prefix(fin, sem_expr(m0, *expr).st);
                }
                self.compile_expr(func, expr)?;
                function_instruction(func, Instr::Control(CtrlInstr::Return));
            },
            TypedStatement::Block { .. } => {
                return self.compile_stmt_block(func, stmt);
            },
            TypedStatement::While { condition, block } => {
                return self.compile_while(func, condition, block);
            },
            _ => {},
        }
        Ok(())
    }

    /// Compiles the statements of a block statement.
    fn compile_stmt_block(&mut self, func: &mut Function, stmt: &TypedStatement) -> (r: Result<(), String>)
        requires
            stmt is Block,
            old(self).wf(),
            stmt_tys_below(*stmt, old(self)@.tys.len()),
            old(self).next_local + stmt_size(*stmt) <= u32::MAX,
            old(self).func_count + stmt_size(*stmt) <= u32::MAX,
            within_limits(sem_stmt(old(self)@, *stmt, false).st),
        ensures
            final(self).wf(),
            final(self)@.tys == old(self)@.tys,
            final(self)@ == sem_stmt(old(self)@, *stmt, false).st,
            function_locals(*final(func)) == function_locals(*old(func)),
            function_instrs(*final(func)) == function_instrs(*old(func)) + sem_stmt(
                old(self)@,
                *stmt,
                false,
            ).code,
            realizes(r, sem_stmt(old(self)@, *stmt, false)),
            final(self).next_local <= old(self).next_local + stmt_size(*stmt),
            final(self).func_count <= old(self).func_count + stmt_size(*stmt),
        decreases stmt_size(*stmt), 1nat,
    {
        let ghost m0 = self@;
        let ghost instrs0 = function_instrs(*func);
        match stmt {
            TypedStatement::Block { statements } => {
                let mut i: usize = 0;
                proof {
                    assert(statements@.take(0) =~= Seq::<TypedStatement>::empty());
                }
                while i < statements.len()
                    invariant
                        m0 == old(self)@,
                        instrs0 == function_instrs(*old(func)),
                        self.wf(),
                        i <= statements@.len(),
                        stmts_tys_below(statements@, m0.tys.len()),
                        self@.tys == m0.tys,
                        stmts_size(statements@) < stmt_size(*stmt),
                        m0.next_local + stmt_size(*stmt) <= u32::MAX,
                        m0.func_count + stmt_size(*stmt) <= u32::MAX,
                        sem_stmt(m0, *stmt, false) == sem_stmts(m0, statements@),
                        within_limits(sem_stmts(m0, statements@).st),
                        sem_stmts(m0, statements@.take(i as int)).err is None,
                        self@ == sem_stmts(m0, statements@.take(i as int)).st,
                        function_instrs(*func) == instrs0 + sem_stmts(
                            m0,
                            statements@.take(i as int),
                        ).code,
                        function_locals(*func) == function_locals(*old(func)),
                        self.next_local <= m0.next_local + stmts_size(statements@.take(i as int)),
                        self.func_count <= m0.func_count + stmts_size(statements@.take(i as int)),
                    decreases statements@.len() - i,
                {
                    proof {
                        lemma_stmts_elem(statements@, i as int, m0.tys.len());
                        lemma_stmts_prefix(m0, statements@, i + 1);
                        assert(statements@.take(i + 1).drop_last() =~= statements@.take(i as int));
                        assert(statements@.take(i + 1).last() == statements@[i as int]);
                        let oi = sem_stmts(m0, statements@.take(i as int));
                        assert(sem_stmts(m0, statements@.take(i + 1)) == then(
                            oi,
                            sem_stmt(oi.st, statements@[i as int], false),
                        ));
                        lemma_within_limits_prefix(
                            sem_stmts(m0, statements@).st,
                            sem_stmts(m0, statements@.take(i + 1)).st,
                        );
                    }
                    self.compile_stmt(func, &statements[i], false)?;
                    i += 1;
                }
                proof {
                    assert(statements@.take(statements@.len() as int) =~= statements@);
                }
            },
            _ => {},
        }
        Ok(())
    }

    /// Compiles `while condition { block }`.
    fn compile_while(
        &mut self,
        func: &mut Function,
        condition: &TypedExpression,
        block: &TypedStatement,
    ) -> (r: Result<(), String>)
        requires
            old(self).wf(),
            expr_tys_below(*condition, old(self)@.tys.len()),
            stmt_tys_below(*block, old(self)@.tys.len()),
            old(self).next_local + expr_size(*condition) + stmt_size(*block) <= u32::MAX,
            old(self).func_count + expr_size(*condition) + stmt_size(*block) <= u32::MAX,
            within_limits(sem_while(old(self)@, *condition, *block).st),
        ensures
            final(self).wf(),
            final(self)@.tys == old(self)@.tys,
            final(self)@ == sem_while(old(self)@, *condition, *block).st,
            function_locals(*final(func)) == function_locals(*old(func)),
            function_instrs(*final(func)) == function_instrs(*old(func)) + sem_while(
                old(self)@,
                *condition,
                *block,
            ).code,
            realizes(r, sem_while(old(self)@, *condition, *block)),
            final(self).next_local <= old(self).next_local + expr_size(*condition) + stmt_size(
                *block,
            ),
            final(self).func_count <= old(self).func_count + expr_size(*condition) + stmt_size(
                *block,
            ),
        decreases expr_size(*condition) + stmt_size(*block), 1nat,
    {
        let ghost m0 = self@;
        proof {
            let o1 = sem_expr(m0, *condition);
            if o1.err is None {
                lemma_stmt_extends(o1.st, *block, false);
            }
            lemma_extends_refl(o1.st);
            lemma_within_limits_prefix(sem_while(m0, *condition, *block).st, o1.st);
        }
        function_instruction(func, Instr::Control(CtrlInstr::Loop));
        function_instruction(func, Instr::Control(CtrlInstr::Loop));
        self.compile_expr(func, condition)?;
        function_instruction(func, Instr::Numeric(NumInstr::I32Const(0)));
        function_instruction(func, Instr::Numeric(NumInstr::Binary(WasmType::I32, BinOp::Eq)));
        function_instruction(func, Instr::Control(CtrlInstr::BrIf(1)));
        self.compile_stmt(func, block, false)?;
        function_instruction(func, Instr::Control(CtrlInstr::Br(0)));
        function_instruction(func, Instr::Control(CtrlInstr::End));
        function_instruction(func, Instr::Control(CtrlInstr::End));
        Ok(())
    }

    /// Compiles the definition of function `name` into a new function of the
    /// module, and exports it under its name.
    #[verifier::rlimit(50)]
    fn compile_function(
        &mut self,
        name: &str,
        params: &Vec<(String, Ty)>,
        return_type: &Ty,
        body: &TypedExpression,
    ) -> (r: Result<(), String>)
        requires
            old(self).wf(),
            expr_tys_below(*body, old(self)@.tys.len()),
            params@.len() + expr_size(*body) <= u32::MAX,
            old(self).func_count + 1 + expr_size(*body) <= u32::MAX,
            within_limits(
                sem_function(old(self)@, name@, params_view(params@), *return_type, *body).st,
            ),
        ensures
            final(self).wf(),
            final(self)@.tys == old(self)@.tys,
            final(self)@ == sem_function(
                old(self)@,
                name@,
                params_view(params@),
                *return_type,
                *body,
            ).st,
            realizes(
                r,
                sem_function(old(self)@, name@, params_view(params@), *return_type, *body),
            ),
            final(self).next_local <= params@.len() + expr_size(*body),
            final(self).func_count <= old(self).func_count + 1 + expr_size(*body),
        decreases expr_size(*body), 3nat,
    {
        let ghost m0 = self@;
        let ghost ps = params_view(params@);
        let ghost fin = sem_function(m0, name@, ps, *return_type, *body);
        let mut wasm_params: Vec<WasmType> = Vec::new();
        let mut i: usize = 0;
        while i < params.len()
            invariant
                i <= params@.len(),
                ps == params_view(params@),
                wasm_params@ == param_types(ps).take(i as int),
            decreases params@.len() - i,
        {
            let t = self.ty_to_wasm(&params[i].1);
            wasm_params.push(t);
            i += 1;
            proof {
                assert(wasm_params@ =~= param_types(ps).take(i as int));
            }
        }
        proof {
            assert(wasm_params@ =~= param_types(ps));
        }
        let mut wasm_result: Vec<WasmType> = Vec::new();
        match return_type {
            Ty::Unit => {},
            _ => {
                wasm_result.push(self.ty_to_wasm(return_type));
            },
        }
        proof {
            assert(wasm_result@ =~= result_types(*return_type));
        }
        let ghost m1 = CompilerModel {
            func_indices: m0.func_indices.insert(name@, m0.func_count),
            locals: param_locals(ps),
            next_local: ps.len() as u32,
            ..declare(m0, (param_types(ps), result_types(*return_type)))
        };
        proof {
            lemma_expr_extends(m1, *body);
            let o = sem_expr(m1, *body);
            lemma_extends_refl(o.st);
            if o.err is None {
                lemma_prefix_push(o.st.code, fin.st.code.last());
                lemma_prefix_push(o.st.exports, fin.st.exports.last());
                assert(fin.st.code =~= o.st.code.push(fin.st.code.last()));
                assert(fin.st.exports =~= o.st.exports.push(fin.st.exports.last()));
                assert(extends(fin.st, o.st));
                lemma_extends_trans(m1, o.st, fin.st);
            }
            lemma_within_limits_prefix(fin.st, m1);
            lemma_within_limits_prefix(fin.st, o.st);
        }
        let func_idx = self.declare_function(&wasm_params, &wasm_result);
        self.func_indices.insert(String::from_str(name), func_idx);
        self.locals.clear();
        self.next_local = 0;
        let mut k: usize = 0;
        proof {
            assert(ps.take(0) =~= Seq::<(Seq<char>, Ty)>::empty());
        }
        while k < params.len()
            invariant
                k <= params@.len(),
                ps == params_view(params@),
                self.locals@ == param_locals(ps.take(k as int)),
                params@.len() <= u32::MAX,
                self@.types == m1.types,
                self@.funcs == m1.funcs,
                self@.code == m1.code,
                self@.globals == m1.globals,
                self@.exports == m1.exports,
                self@.tys == m1.tys,
                self@.func_count == m1.func_count,
                self@.func_indices == m1.func_indices,
                self.wf(),
            decreases params@.len() - k,
        {
            self.locals.insert(params[k].0.clone(), k as u32);
            proof {
                assert(ps.take(k + 1).drop_last() =~= ps.take(k as int));
                assert(ps.take(k + 1).last() == (params@[k as int].0@, params@[k as int].1));
            }
            k += 1;
        }
        proof {
            assert(ps.take(params@.len() as int) =~= ps);
        }
        self.next_local = params.len() as u32;
        let mut local_types: Vec<WasmType> = Vec::new();
        self.collect_local_types(body, &mut local_types)?;
        proof {
            assert(local_types@ =~= collect_expr(m0.tys, *body));
            lemma_collect_expr_len(m0.tys, *body);
            lemma_run_lengths_len(local_types@);
        }
        let local_decls = group_locals(&local_types);
        let mut f = function_new(&local_decls);
        self.next_local = params.len() as u32;
        proof {
            assert(self@ =~= m1);
        }
        self.compile_expr(&mut f, body)?;
        if wasm_result.len() > 0 {
            match body {
                TypedExpression::Block(stmts, _) => {
                    let last_is_expr = stmts.len() > 0 && matches!(
                        stmts[stmts.len() - 1],
                        TypedStatement::ExpressionStatement(_)
                    );
                    if !last_is_expr {
                        match wasm_result[0] {
                            WasmType::I32 => {
                                function_instruction(&mut f, Instr::Numeric(NumInstr::I32Const(0)));
                            },
                            WasmType::I64 => {
                                function_instruction(&mut f, Instr::Numeric(NumInstr::I64Const(0)));
                            },
                        }
                    }
                },
                _ => {},
            }
        }
        function_instruction(&mut f, Instr::Control(CtrlInstr::Return));
        function_instruction(&mut f, Instr::Control(CtrlInstr::End));
        proof {
            assert(function_instrs(f) =~= sem_expr(m1, *body).code + default_return(
                result_types(*return_type),
                *body,
            ) + seq![ctrl(CtrlInstr::Return), ctrl(CtrlInstr::End)]);
            assert(fin.st.code.drop_last() =~= sem_expr(m1, *body).st.code);
            assert(fin.st.exports.drop_last() =~= sem_expr(m1, *body).st.exports);
        }
        code_section_function(&mut self.code, &f);
        export_section_export_func(&mut self.exports, name, func_idx);
        proof {
            assert(self@ =~= fin.st);
        }
        Ok(())
    }

    /// Compiles the top-level statements of a program; each is compiled into a
    /// scratch function body that is then discarded.
    pub fn compile_program(&mut self, program: &TypedNode) -> (r: Result<(), String>)
        requires
            old(self).wf(),
            program_tys_below(*program, old(self)@.tys.len()),
            old(self)@.next_local + program_size(*program) <= u32::MAX,
            old(self)@.func_count + program_size(*program) <= u32::MAX,
            within_limits(sem_program(old(self)@, program_statements(*program)).st),
        ensures
            final(self).wf(),
            final(self)@ == sem_program(old(self)@, program_statements(*program)).st,
            realizes(r, sem_program(old(self)@, program_statements(*program))),
    {
        let ghost m0 = self@;
        let statements = match program {
            TypedNode::Program { statements } => statements,
        };
        let mut i: usize = 0;
        proof {
            assert(statements@.take(0) =~= Seq::<TypedStatement>::empty());
        }
        while i < statements.len()
            invariant
                m0 == old(self)@,
                statements@ == program_statements(*program),
                self.wf(),
                i <= statements@.len(),
                stmts_tys_below(statements@, m0.tys.len()),
                self@.tys == m0.tys,
                m0.next_local + stmts_size(statements@) <= u32::MAX,
                m0.func_count + stmts_size(statements@) <= u32::MAX,
                within_limits(sem_program(m0, statements@).st),
                sem_program(m0, statements@.take(i as int)).err is None,
                self@ == sem_program(m0, statements@.take(i as int)).st,
                self.next_local <= m0.next_local + stmts_size(statements@.take(i as int)),
                self.func_count <= m0.func_count + stmts_size(statements@.take(i as int)),
            decreases statements@.len() - i,
        {
            proof {
                lemma_stmts_elem(statements@, i as int, m0.tys.len());
                lemma_program_prefix(m0, statements@, i + 1);
                assert(statements@.take(i + 1).drop_last() =~= statements@.take(i as int));
                assert(statements@.take(i + 1).last() == statements@[i as int]);
                let oi = sem_program(m0, statements@.take(i as int));
                let ri = sem_stmt(oi.st, statements@[i as int], false);
                assert(sem_program(m0, statements@.take(i + 1)) == (Outcome {
                    st: ri.st,
                    code: seq![],
                    err: ri.err,
                }));
                lemma_within_limits_prefix(
                    sem_program(m0, statements@).st,
                    sem_program(m0, statements@.take(i + 1)).st,
                );
            }
            let mut dummy_func = function_new(&Vec::new());
            self.compile_stmt(&mut dummy_func, &statements[i], false)?;
            i += 1;
        }
        proof {
            assert(statements@.take(statements@.len() as int) =~= statements@);
        }
        Ok(())
    }

    /// Assembles the module: type, function, memory (one memory of 1 to 256
    /// pages), global, export and code sections, in that order.
    pub fn finish(self) -> (bytes: Vec<u8>)
        requires
            within_limits(self@),
        ensures
            bytes@ == module_encoding(module_layout(self@)),
            bytes@.take(8) == wasm_header(),
    {
        let mut module = module_new();
        module_type_section(&mut module, &self.types);
        module_function_section(&mut module, &self.funcs);
        let mut mem = memory_section_new();
        memory_section_memory(&mut mem, 1, Some(256));
        module_memory_section(&mut module, &mem);
        module_global_section(&mut module, &self.globals);
        module_export_section(&mut module, &self.exports);
        module_code_section(&mut module, &self.code);
        proof {
            assert(module_sections(module) =~= module_layout(self@));
        }
        module_finish(module)
    }
}

/// Every function is declared with the type entry of its own index: function
/// `i` has type `i`, and there are as many types as functions.
pub proof fn law_function_type_is_its_own_index(c: &WasmCompiler)
    requires
        c.wf(),
    ensures
        c@.types.len() == c@.funcs.len(),
        forall|i: int| 0 <= i < c@.funcs.len() ==> #[trigger] c@.funcs[i] == i,
{
}

/// Compiles a typed program into the bytes of a WebAssembly module.
pub fn compile_to_wasm(program: &TypedNode, tcx: TypeContext) -> (r: Result<Vec<u8>, String>)
    requires
        program_tys_below(*program, tcx@.len()),
        program_size(*program) <= u32::MAX,
        within_limits(program_outcome(*program, tcx@).st),
    ensures
        match compile_result(*program, tcx@) {
            Ok(bytes) => r matches Ok(out) && out@ == bytes && bytes.take(8) == wasm_header(),
            Err(msg) => r matches Err(e) && e@ == msg,
        },
{
    let mut compiler = WasmCompiler::new(tcx);
    compiler.add_heap_global();
    compiler.compile_program(program)?;
    Ok(compiler.finish())
}



/// The operator that a binary operator symbol denotes.
fn binop_from_str(op: &str) -> (b: Option<BinOp>)
    ensures
        b == binop_of(op@),
{
    if str_eq(op, "+") {
        Some(BinOp::Add)
    } else if str_eq(op, "-") {
        Some(BinOp::Sub)
    } else if str_eq(op, "*") {
        Some(BinOp::Mul)
    } else if str_eq(op, "/") {
        Some(BinOp::DivS)
    } else if str_eq(op, "==") {
        Some(BinOp::Eq)
    } else if str_eq(op, "!=") {
        Some(BinOp::Ne)
    } else if str_eq(op, "<") {
        Some(BinOp::LtS)
    } else if str_eq(op, ">") {
        Some(BinOp::GtS)
    } else if str_eq(op, "<=") {
        Some(BinOp::LeS)
    } else if str_eq(op, ">=") {
        Some(BinOp::GeS)
    } else {
        None
    }
}

/// The optional expression behind an optional reference.
pub open spec fn opt_expr(a: Option<&TypedExpression>) -> Option<TypedExpression> {
    match a {
        Some(e) => Some(*e),
        None => None,
    }
}

/// The size of an optional expression (0 when absent).
pub open spec fn opt_size(a: Option<&TypedExpression>) -> nat {
    match a {
        Some(e) => expr_size(*e),
        None => 0,
    }
}

} // verus!
