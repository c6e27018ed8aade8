//! Constant folding of infix operations on two integer literals.
use vstd::prelude::*;
use crate::ast::{ant_op, flag, spec_type_of, IntValue, Ty, TypeContext, TypedExpression};
use crate::text::str_eq;
use cranelift::prelude::Value;
use crate::clif::{
    clif_modulus,
    appended, binary_appended, builder_binaries, builder_defines, builder_iconsts, builder_imm_adds, builder_positioned,
    builder_stores, masked_imm,
    ClifInt,
};
use crate::compile_state::FunctionState;

verus! {

/// Both literals are of the same integer type.
pub open spec fn same_kind(l: IntValue, r: IntValue) -> bool {
    match (l, r) {
        (IntValue::I8(_), IntValue::I8(_)) => true,
        (IntValue::I16(_), IntValue::I16(_)) => true,
        (IntValue::I32(_), IntValue::I32(_)) => true,
        (IntValue::I64(_), IntValue::I64(_)) => true,
        (IntValue::U8(_), IntValue::U8(_)) => true,
        (IntValue::U16(_), IntValue::U16(_)) => true,
        (IntValue::U32(_), IntValue::U32(_)) => true,
        (IntValue::U64(_), IntValue::U64(_)) => true,
        _ => false,
    }
}

/// The number that a literal denotes.
pub open spec fn int_value(v: IntValue) -> int {
    match v {
        IntValue::I8(x) => x as int,
        IntValue::I16(x) => x as int,
        IntValue::I32(x) => x as int,
        IntValue::I64(x) => x as int,
        IntValue::U8(x) => x as int,
        IntValue::U16(x) => x as int,
        IntValue::U32(x) => x as int,
        IntValue::U64(x) => x as int,
    }
}

/// Whether `x` is a value of the integer type of `v`.
pub open spec fn fits_kind(v: IntValue, x: int) -> bool {
    match v {
        IntValue::I8(_) => i8::MIN <= x <= i8::MAX,
        IntValue::I16(_) => i16::MIN <= x <= i16::MAX,
        IntValue::I32(_) => i32::MIN <= x <= i32::MAX,
        IntValue::I64(_) => i64::MIN <= x <= i64::MAX,
        IntValue::U8(_) => 0 <= x <= u8::MAX,
        IntValue::U16(_) => 0 <= x <= u16::MAX,
        IntValue::U32(_) => 0 <= x <= u32::MAX,
        IntValue::U64(_) => 0 <= x <= u64::MAX,
    }
}

/// The Cranelift type that holds values of the integer type of `v`.
pub open spec fn clif_type_of(v: IntValue) -> ClifInt {
    match v {
        IntValue::I8(_) => ClifInt::I8,
        IntValue::U8(_) => ClifInt::I8,
        IntValue::I16(_) => ClifInt::I16,
        IntValue::U16(_) => ClifInt::I16,
        IntValue::I32(_) => ClifInt::I32,
        IntValue::U32(_) => ClifInt::I32,
        IntValue::I64(_) => ClifInt::I64,
        IntValue::U64(_) => ClifInt::I64,
    }
}

/// The `i64` immediate of a value `x` of the integer type of `v`: a `u64`
/// is reinterpreted, every other type converts exactly.
pub open spec fn imm_of(v: IntValue, x: int) -> i64 {
    match v {
        IntValue::U64(_) => (x as u64) as i64,
        _ => x as i64,
    }
}

/// The arithmetic operations that are folded.
#[derive(Clone, Copy, Debug, PartialEq, Eq, Structural)]
pub enum FoldOp {
    Add,
    Sub,
    Mul,
}

pub open spec fn apply(op: FoldOp, a: int, b: int) -> int {
    match op {
        FoldOp::Add => a + b,
        FoldOp::Sub => a - b,
        FoldOp::Mul => a * b,
    }
}

/// The constant that folding `l op r` inserts: its type and immediate.
pub open spec fn folded(op: FoldOp, l: IntValue, r: IntValue) -> (ClifInt, i64) {
    (clif_type_of(l), imm_of(l, apply(op, int_value(l), int_value(r))))
}

/// The constant that folding a comparison inserts: an `i8` that is 1 when it holds.
pub open spec fn folded_test(holds: bool) -> (ClifInt, i64) {
    (ClifInt::I8, if holds { 1 } else { 0 })
}

/// The type and immediate of `l op r` for two literals of the same type,
/// computed in that type.
fn fold_arith(op: FoldOp, left: IntValue, right: IntValue) -> (c: (ClifInt, i64))
    requires
        same_kind(left, right),
        fits_kind(left, apply(op, int_value(left), int_value(right))),
    ensures
        c == folded(op, left, right),
{
    match (left, right) {
        (IntValue::I64(l), IntValue::I64(r)) => (ClifInt::I64, match op {
            FoldOp::Add => l + r,
            FoldOp::Sub => l - r,
            FoldOp::Mul => l * r,
        }),
        (IntValue::I32(l), IntValue::I32(r)) => (ClifInt::I32, match op {
            FoldOp::Add => (l + r) as i64,
            FoldOp::Sub => (l - r) as i64,
            FoldOp::Mul => (l * r) as i64,
        }),
        (IntValue::I16(l), IntValue::I16(r)) => (ClifInt::I16, match op {
            FoldOp::Add => (l + r) as i64,
            FoldOp::Sub => (l - r) as i64,
            FoldOp::Mul => (l * r) as i64,
        }),
        (IntValue::I8(l), IntValue::I8(r)) => (ClifInt::I8, match op {
            FoldOp::Add => (l + r) as i64,
            FoldOp::Sub => (l - r) as i64,
            FoldOp::Mul => (l * r) as i64,
        }),
        (IntValue::U64(l), IntValue::U64(r)) => (ClifInt::I64, match op {
            FoldOp::Add => (l + r) as i64,
            FoldOp::Sub => (l - r) as i64,
            FoldOp::Mul => (l * r) as i64,
        }),
        (IntValue::U32(l), IntValue::U32(r)) => (ClifInt::I32, match op {
            FoldOp::Add => (l + r) as i64,
            FoldOp::Sub => (l - r) as i64,
            FoldOp::Mul => (l * r) as i64,
        }),
        (IntValue::U16(l), IntValue::U16(r)) => (ClifInt::I16, match op {
            FoldOp::Add => (l + r) as i64,
            FoldOp::Sub => (l - r) as i64,
            FoldOp::Mul => (l * r) as i64,
        }),
        (IntValue::U8(l), IntValue::U8(r)) => (ClifInt::I8, match op {
            FoldOp::Add => (l + r) as i64,
            FoldOp::Sub => (l - r) as i64,
            FoldOp::Mul => (l * r) as i64,
        }),
        _ => {
            proof {
                assert(false);
            }
            (ClifInt::I8, 0)
        },
    }
}

/// Whether two literals of the same type are equal.
fn literals_equal(left: IntValue, right: IntValue) -> (eq: bool)
    requires
        same_kind(left, right),
    ensures
        eq == (int_value(left) == int_value(right)),
{
    match (left, right) {
        (IntValue::I64(l), IntValue::I64(r)) => l == r,
        (IntValue::I32(l), IntValue::I32(r)) => l == r,
        (IntValue::I16(l), IntValue::I16(r)) => l == r,
        (IntValue::I8(l), IntValue::I8(r)) => l == r,
        (IntValue::U64(l), IntValue::U64(r)) => l == r,
        (IntValue::U32(l), IntValue::U32(r)) => l == r,
        (IntValue::U16(l), IntValue::U16(r)) => l == r,
        (IntValue::U8(l), IntValue::U8(r)) => l == r,
        _ => {
            proof {
                assert(false);
            }
            false
        },
    }
}


/// The constant stored for a folded constant `c` (its immediate masked to
/// its type), whose result is `v`.
pub open spec fn stored(c: (ClifInt, i64), v: Value) -> (ClifInt, i64, Value) {
    (c.0, masked_imm(c.0, c.1), v)
}

/// Everything but the function being built is as it was.
pub open spec fn same_context(a: FunctionState<'_>, b: FunctionState<'_>) -> bool {
    &&& a.scopes() == b.scopes()
    &&& a.wf() == b.wf()
    &&& a.type_context() == b.type_context()
    &&& a.generic_defs() == b.generic_defs()
    &&& a.compiled_generic_defs() == b.compiled_generic_defs()
}

/// Folds `left + right` into one constant of their type.
pub fn compile_infix_iadd(state: &mut FunctionState<'_>, left: IntValue, right: IntValue) -> (v: Value)
    requires
        builder_positioned(old(state).fn_builder()),
        same_kind(left, right),
        fits_kind(left, int_value(left) + int_value(right)),
    ensures
        appended(old(state).fn_builder(), final(state).fn_builder(), v),
        builder_binaries(final(state).fn_builder()) == builder_binaries(old(state).fn_builder()),
        builder_imm_adds(final(state).fn_builder()) == builder_imm_adds(old(state).fn_builder()),
        builder_stores(final(state).fn_builder()) == builder_stores(old(state).fn_builder()),
        builder_iconsts(final(state).fn_builder()) == builder_iconsts(old(state).fn_builder()).push(
            stored(folded(FoldOp::Add, left, right), v),
        ),
        same_context(*final(state), *old(state)),
{
    let c = fold_arith(FoldOp::Add, left, right);
    state.emit_iconst(c.0, c.1)
}

/// Folds `left - right` into one constant of their type.
pub fn compile_infix_isub(state: &mut FunctionState<'_>, left: IntValue, right: IntValue) -> (v: Value)
    requires
        builder_positioned(old(state).fn_builder()),
        same_kind(left, right),
        fits_kind(left, int_value(left) - int_value(right)),
    ensures
        appended(old(state).fn_builder(), final(state).fn_builder(), v),
        builder_binaries(final(state).fn_builder()) == builder_binaries(old(state).fn_builder()),
        builder_imm_adds(final(state).fn_builder()) == builder_imm_adds(old(state).fn_builder()),
        builder_stores(final(state).fn_builder()) == builder_stores(old(state).fn_builder()),
        builder_iconsts(final(state).fn_builder()) == builder_iconsts(old(state).fn_builder()).push(
            stored(folded(FoldOp::Sub, left, right), v),
        ),
        same_context(*final(state), *old(state)),
{
    let c = fold_arith(FoldOp::Sub, left, right);
    state.emit_iconst(c.0, c.1)
}

/// Folds `left * right` into one constant of their type.
pub fn compile_infix_imul(state: &mut FunctionState<'_>, left: IntValue, right: IntValue) -> (v: Value)
    requires
        builder_positioned(old(state).fn_builder()),
        same_kind(left, right),
        fits_kind(left, int_value(left) * int_value(right)),
    ensures
        appended(old(state).fn_builder(), final(state).fn_builder(), v),
        builder_binaries(final(state).fn_builder()) == builder_binaries(old(state).fn_builder()),
        builder_imm_adds(final(state).fn_builder()) == builder_imm_adds(old(state).fn_builder()),
        builder_stores(final(state).fn_builder()) == builder_stores(old(state).fn_builder()),
        builder_iconsts(final(state).fn_builder()) == builder_iconsts(old(state).fn_builder()).push(
            stored(folded(FoldOp::Mul, left, right), v),
        ),
        same_context(*final(state), *old(state)),
{
    let c = fold_arith(FoldOp::Mul, left, right);
    state.emit_iconst(c.0, c.1)
}

/// Folds `left == right` into an `i8` constant that is 1 when they are equal.
pub fn compile_infix_ieq(state: &mut FunctionState<'_>, left: IntValue, right: IntValue) -> (v: Value)
    requires
        builder_positioned(old(state).fn_builder()),
        same_kind(left, right),
    ensures
        appended(old(state).fn_builder(), final(state).fn_builder(), v),
        builder_binaries(final(state).fn_builder()) == builder_binaries(old(state).fn_builder()),
        builder_imm_adds(final(state).fn_builder()) == builder_imm_adds(old(state).fn_builder()),
        builder_stores(final(state).fn_builder()) == builder_stores(old(state).fn_builder()),
        builder_iconsts(final(state).fn_builder()) == builder_iconsts(old(state).fn_builder()).push(
            stored(folded_test(int_value(left) == int_value(right)), v),
        ),
        same_context(*final(state), *old(state)),
{
    let eq = literals_equal(left, right);
    state.emit_iconst(ClifInt::I8, if eq { 1 } else { 0 })
}

/// Folds `left != right` into an `i8` constant that is 1 when they differ.
pub fn compile_infix_ineq(state: &mut FunctionState<'_>, left: IntValue, right: IntValue) -> (v: Value)
    requires
        builder_positioned(old(state).fn_builder()),
        same_kind(left, right),
    ensures
        appended(old(state).fn_builder(), final(state).fn_builder(), v),
        builder_binaries(final(state).fn_builder()) == builder_binaries(old(state).fn_builder()),
        builder_imm_adds(final(state).fn_builder()) == builder_imm_adds(old(state).fn_builder()),
        builder_stores(final(state).fn_builder()) == builder_stores(old(state).fn_builder()),
        builder_iconsts(final(state).fn_builder()) == builder_iconsts(old(state).fn_builder()).push(
            stored(folded_test(int_value(left) != int_value(right)), v),
        ),
        same_context(*final(state), *old(state)),
{
    let eq = literals_equal(left, right);
    state.emit_iconst(ClifInt::I8, if eq { 0 } else { 1 })
}


/// Cranelift's integer comparisons that infix operators map to.
#[derive(Clone, Copy, Debug, PartialEq, Eq, Structural)]
pub enum IntCond {
    SignedGreaterThan,
    SignedLessThan,
    Equal,
    NotEqual,
}

/// The Cranelift instruction that computes an infix operation on two values.
#[derive(Clone, Copy, Debug, PartialEq, Eq, Structural)]
pub enum InfixInst {
    Iadd,
    Isub,
    Imul,
    Fdiv,
    Icmp(IntCond),
}

/// How an infix operation is compiled: folded into a constant when both
/// operands are integer literals, else computed by one instruction on the
/// compiled operands.
#[derive(Clone, Copy, Debug, PartialEq, Eq, Structural)]
pub enum InfixPlan {
    FoldAdd,
    FoldSub,
    FoldMul,
    FoldEq,
    FoldNe,
    Apply(InfixInst),
}

/// The instruction for `op` on two integer operands, if there is one.
pub open spec fn int_infix_inst(op: Seq<char>) -> Option<InfixInst> {
    if op == "+"@ {
        Some(InfixInst::Iadd)
    } else if op == "-"@ {
        Some(InfixInst::Isub)
    } else if op == "*"@ {
        Some(InfixInst::Imul)
    } else if op == "/"@ {
        Some(InfixInst::Fdiv)
    } else if op == ">"@ {
        Some(InfixInst::Icmp(IntCond::SignedGreaterThan))
    } else if op == "<"@ {
        Some(InfixInst::Icmp(IntCond::SignedLessThan))
    } else if op == "=="@ {
        Some(InfixInst::Icmp(IntCond::Equal))
    } else if op == "!="@ {
        Some(InfixInst::Icmp(IntCond::NotEqual))
    } else {
        None
    }
}

/// The instruction for `op` on two boolean operands, if there is one.
pub open spec fn bool_infix_inst(op: Seq<char>) -> Option<InfixInst> {
    if op == "=="@ {
        Some(InfixInst::Icmp(IntCond::Equal))
    } else if op == "!="@ {
        Some(InfixInst::Icmp(IntCond::NotEqual))
    } else {
        None
    }
}

/// How `left op right` is compiled; `None` where the back end has no
/// instruction for it.
pub open spec fn infix_plan(
    op: Seq<char>,
    left: TypedExpression,
    right: TypedExpression,
    tys: Seq<Ty>,
) -> Option<InfixPlan> {
    if left is Int && right is Int && op == "+"@ {
        Some(InfixPlan::FoldAdd)
    } else if left is Int && right is Int && op == "-"@ {
        Some(InfixPlan::FoldSub)
    } else if left is Int && right is Int && op == "*"@ {
        Some(InfixPlan::FoldMul)
    } else if left is Int && right is Int && op == "=="@ {
        Some(InfixPlan::FoldEq)
    } else if left is Int && right is Int && op == "!="@ {
        Some(InfixPlan::FoldNe)
    } else {
        match (tys[spec_type_of(left) as int], tys[spec_type_of(right) as int]) {
            (Ty::IntTy(_), Ty::IntTy(_)) => match int_infix_inst(op) {
                Some(i) => Some(InfixPlan::Apply(i)),
                None => None,
            },
            (Ty::Bool, Ty::Bool) => match bool_infix_inst(op) {
                Some(i) => Some(InfixPlan::Apply(i)),
                None => None,
            },
            _ => None,
        }
    }
}

/// Decides how `left op right` is compiled; `None` where the back end has no
/// instruction for it.
pub fn plan_infix(op: &str, left: &TypedExpression, right: &TypedExpression, tcx: &TypeContext) -> (p:
    Option<InfixPlan>)
    requires
        spec_type_of(*left) < tcx@.len(),
        spec_type_of(*right) < tcx@.len(),
    ensures
        p == infix_plan(op@, *left, *right, tcx@),
{
    let both_literals = match (left, right) {
        (TypedExpression::Int { .. }, TypedExpression::Int { .. }) => true,
        _ => false,
    };
    if both_literals && str_eq(op, "+") {
        return Some(InfixPlan::FoldAdd);
    } else if both_literals && str_eq(op, "-") {
        return Some(InfixPlan::FoldSub);
    } else if both_literals && str_eq(op, "*") {
        return Some(InfixPlan::FoldMul);
    } else if both_literals && str_eq(op, "==") {
        return Some(InfixPlan::FoldEq);
    } else if both_literals && str_eq(op, "!=") {
        return Some(InfixPlan::FoldNe);
    }
    let lty = tcx.get(left.get_type());
    let rty = tcx.get(right.get_type());
    let inst = match (lty, rty) {
        (Ty::IntTy(_), Ty::IntTy(_)) => {
            if str_eq(op, "+") {
                Some(InfixInst::Iadd)
            } else if str_eq(op, "-") {
                Some(InfixInst::Isub)
            } else if str_eq(op, "*") {
                Some(InfixInst::Imul)
            } else if str_eq(op, "/") {
                Some(InfixInst::Fdiv)
            } else if str_eq(op, ">") {
                Some(InfixInst::Icmp(IntCond::SignedGreaterThan))
            } else if str_eq(op, "<") {
                Some(InfixInst::Icmp(IntCond::SignedLessThan))
            } else if str_eq(op, "==") {
                Some(InfixInst::Icmp(IntCond::Equal))
            } else if str_eq(op, "!=") {
                Some(InfixInst::Icmp(IntCond::NotEqual))
            } else {
                None
            }
        },
        (Ty::Bool, Ty::Bool) => {
            if str_eq(op, "==") {
                Some(InfixInst::Icmp(IntCond::Equal))
            } else if str_eq(op, "!=") {
                Some(InfixInst::Icmp(IntCond::NotEqual))
            } else {
                None
            }
        },
        _ => None,
    };
    match inst {
        Some(i) => Some(InfixPlan::Apply(i)),
        None => None,
    }
}


/// The literal of an integer literal expression.
pub open spec fn literal(e: TypedExpression) -> IntValue {
    match e {
        TypedExpression::Int { value, .. } => value,
        _ => IntValue::I64(0),
    }
}

/// Whether a plan can be carried out on the literals `l` and `r`: a folded
/// operation needs literals of the same type, and a folded arithmetic result
/// must fit in that type.
pub open spec fn plan_defined(plan: InfixPlan, l: IntValue, r: IntValue) -> bool {
    match plan {
        InfixPlan::FoldAdd => same_kind(l, r) && fits_kind(l, int_value(l) + int_value(r)),
        InfixPlan::FoldSub => same_kind(l, r) && fits_kind(l, int_value(l) - int_value(r)),
        InfixPlan::FoldMul => same_kind(l, r) && fits_kind(l, int_value(l) * int_value(r)),
        InfixPlan::FoldEq => same_kind(l, r),
        InfixPlan::FoldNe => same_kind(l, r),
        InfixPlan::Apply(_) => true,
    }
}

/// The constant that a folding plan inserts for the literals `l` and `r`.
pub open spec fn plan_constant(plan: InfixPlan, l: IntValue, r: IntValue) -> (ClifInt, i64) {
    match plan {
        InfixPlan::FoldAdd => folded(FoldOp::Add, l, r),
        InfixPlan::FoldSub => folded(FoldOp::Sub, l, r),
        InfixPlan::FoldMul => folded(FoldOp::Mul, l, r),
        InfixPlan::FoldEq => folded_test(int_value(l) == int_value(r)),
        InfixPlan::FoldNe => folded_test(int_value(l) != int_value(r)),
        InfixPlan::Apply(_) => (ClifInt::I8, 0),
    }
}

/// The literals of two integer literal expressions.
fn literals(left: &TypedExpression, right: &TypedExpression) -> (lr: (IntValue, IntValue))
    requires
        *left is Int,
        *right is Int,
    ensures
        lr == (literal(*left), literal(*right)),
{
    match (left, right) {
        (TypedExpression::Int { value: l, .. }, TypedExpression::Int { value: r, .. }) => (*l, *r),
        _ => {
            proof {
                assert(false);
            }
            (IntValue::I64(0), IntValue::I64(0))
        },
    }
}

/// Compiles `left op right`. Two integer literals under `+`, `-`, `*`, `==`
/// or `!=` fold into one constant, and no operand is compiled. Otherwise the
/// left operand and then the right one are compiled by `compile_operand`,
/// and the instruction for `op` on their types is applied to the two values,
/// left first. An error from compiling an operand is returned as it is, and
/// after an error in the left operand the right one is not compiled.
pub fn compile_infix<'a, F>(
    state: &mut FunctionState<'a>,
    op: &str,
    left: &TypedExpression,
    right: &TypedExpression,
    compile_operand: &F,
) -> (r: Result<Value, String>) where
    F: Fn(&mut FunctionState<'a>, &TypedExpression) -> Result<Value, String>,

    requires
        builder_positioned(old(state).fn_builder()),
        spec_type_of(*left) < old(state).type_context()@.len(),
        spec_type_of(*right) < old(state).type_context()@.len(),
        infix_plan(op@, *left, *right, old(state).type_context()@) matches Some(plan) ==> plan_defined(
            plan,
            literal(*left),
            literal(*right),
        ),
        infix_plan(op@, *left, *right, old(state).type_context()@) is None ==> forall|
            m1: &mut FunctionState<'a>,
            r1: Result<Value, String>,
            m2: &mut FunctionState<'a>,
            r2: Result<Value, String>,
        |
            #![trigger call_ensures(*compile_operand, (m1, left), r1), call_ensures(*compile_operand, (m2, right), r2)]
            *m1 == *old(state) && call_ensures(*compile_operand, (m1, left), r1) && r1 is Ok && *m2
                == *final(m1) && call_ensures(*compile_operand, (m2, right), r2) ==> r2 is Err,
        forall|s: &mut FunctionState<'a>, e: &TypedExpression| call_requires(*compile_operand, (s, e)),
        forall|s: &mut FunctionState<'a>, e: &TypedExpression, res: Result<Value, String>|
            #[trigger] call_ensures(*compile_operand, (s, e), res) && builder_positioned(s.fn_builder())
                ==> {
                &&& builder_positioned(final(s).fn_builder())
                &&& res matches Ok(v) ==> builder_defines(final(s).fn_builder(), v)
                &&& forall|w: Value|
                    builder_defines(s.fn_builder(), w) ==> #[trigger] builder_defines(
                        final(s).fn_builder(),
                        w,
                    )
            },
    ensures
        builder_positioned(final(state).fn_builder()),
        match infix_plan(op@, *left, *right, old(state).type_context()@) {
            Some(InfixPlan::Apply(inst)) => r matches Ok(v) ==> exists|
                m1: &mut FunctionState<'a>,
                r1: Result<Value, String>,
                m2: &mut FunctionState<'a>,
                r2: Result<Value, String>,
            |
                #![trigger call_ensures(*compile_operand, (m1, left), r1), call_ensures(*compile_operand, (m2, right), r2)]
                {
                    &&& *m1 == *old(state)
                    &&& call_ensures(*compile_operand, (m1, left), r1)
                    &&& r1 is Ok
                    &&& *m2 == *final(m1)
                    &&& call_ensures(*compile_operand, (m2, right), r2)
                    &&& r2 is Ok
                    &&& binary_appended(
                        final(m2).fn_builder(),
                        final(state).fn_builder(),
                        inst,
                        r1->Ok_0,
                        r2->Ok_0,
                        v,
                    )
                    &&& builder_imm_adds(final(state).fn_builder()) == builder_imm_adds(
                        final(m2).fn_builder(),
                    )
                    &&& builder_stores(final(state).fn_builder()) == builder_stores(final(m2).fn_builder())
                },
            Some(plan) => r matches Ok(v) && {
                &&& builder_defines(final(state).fn_builder(), v)
                &&& builder_iconsts(final(state).fn_builder()) == builder_iconsts(
                    old(state).fn_builder(),
                ).push(stored(plan_constant(plan, literal(*left), literal(*right)), v))
                &&& builder_binaries(final(state).fn_builder()) == builder_binaries(
                    old(state).fn_builder(),
                )
                &&& builder_imm_adds(final(state).fn_builder()) == builder_imm_adds(
                    old(state).fn_builder(),
                )
                &&& builder_stores(final(state).fn_builder()) == builder_stores(old(state).fn_builder())
                &&& same_context(*final(state), *old(state))
            },
            None => r is Err,
        },
        (infix_plan(op@, *left, *right, old(state).type_context()@) matches Some(InfixPlan::Apply(_))
            || infix_plan(op@, *left, *right, old(state).type_context()@) is None) ==> (r matches Err(
            e,
        ) ==> {
            ||| exists|m1: &mut FunctionState<'a>, r1: Result<Value, String>|
                #![trigger call_ensures(*compile_operand, (m1, left), r1)]
                *m1 == *old(state) && call_ensures(*compile_operand, (m1, left), r1) && r1 == Err::<
                    Value,
                    String,
                >(e) && *final(state) == *final(m1)
            ||| exists|
                m1: &mut FunctionState<'a>,
                r1: Result<Value, String>,
                m2: &mut FunctionState<'a>,
                r2: Result<Value, String>,
            |
                #![trigger call_ensures(*compile_operand, (m1, left), r1), call_ensures(*compile_operand, (m2, right), r2)]
                *m1 == *old(state) && call_ensures(*compile_operand, (m1, left), r1) && r1 is Ok && *m2
                    == *final(m1) && call_ensures(*compile_operand, (m2, right), r2) && r2 == Err::<
                    Value,
                    String,
                >(e) && *final(state) == *final(m2)
        }),
{
    let plan = plan_infix(op, left, right, state.types());
    match plan {
        Some(InfixPlan::FoldAdd) => {
            let (l, r) = literals(left, right);
            Ok(compile_infix_iadd(state, l, r))
        },
        Some(InfixPlan::FoldSub) => {
            let (l, r) = literals(left, right);
            Ok(compile_infix_isub(state, l, r))
        },
        Some(InfixPlan::FoldMul) => {
            let (l, r) = literals(left, right);
            Ok(compile_infix_imul(state, l, r))
        },
        Some(InfixPlan::FoldEq) => {
            let (l, r) = literals(left, right);
            Ok(compile_infix_ieq(state, l, r))
        },
        Some(InfixPlan::FoldNe) => {
            let (l, r) = literals(left, right);
            Ok(compile_infix_ineq(state, l, r))
        },
        Some(InfixPlan::Apply(inst)) => {
            let lval = match compile_operand(state, left) {
                Ok(v) => v,
                Err(e) => {
                    return Err(e);
                },
            };
            let rval = match compile_operand(state, right) {
                Ok(v) => v,
                Err(e) => {
                    return Err(e);
                },
            };
            Ok(state.emit_binary(inst, lval, rval))
        },
        None => {
            match compile_operand(state, left) {
                Ok(_) => {},
                Err(e) => {
                    return Err(e);
                },
            }
            match compile_operand(state, right) {
                Ok(_) => {},
                Err(e) => {
                    return Err(e);
                },
            }
            proof {
                assert(false);
            }
            Err(String::new())
        },
    }
}

/// Folding `==` and folding `!=` on the same literals give complementary
/// constants: one is 1 and the other 0.
pub proof fn law_eq_ne_complement(left: IntValue, right: IntValue)
    ensures
        folded_test(int_value(left) == int_value(right)).1 + folded_test(int_value(left)
            != int_value(right)).1 == 1,
        folded_test(int_value(left) == int_value(right)).0 == ClifInt::I8,
{
}

/// A folded sum of two signed literals stores the mathematical sum when it
/// fits in their type.
pub proof fn law_fold_add_exact(left: IntValue, right: IntValue)
    requires
        same_kind(left, right),
        left is I64 || left is I32 || left is I16 || left is I8,
        fits_kind(left, int_value(left) + int_value(right)),
    ensures
        folded(FoldOp::Add, left, right).1 == int_value(left) + int_value(right),
{
}


/// Whether the condition `cc` holds of the signed values `x` and `y`.
pub open spec fn cond_holds(cc: IntCond, x: int, y: int) -> bool {
    match cc {
        IntCond::SignedGreaterThan => x > y,
        IntCond::SignedLessThan => x < y,
        IntCond::Equal => x == y,
        IntCond::NotEqual => x != y,
    }
}

/// What an instruction computes on integer operand values, before wrapping
/// to its width (a comparison gives 1 or 0); `fdiv` is a floating-point
/// instruction and gives no integer.
pub open spec fn eval_inst(i: InfixInst, x: int, y: int) -> Option<int> {
    match i {
        InfixInst::Iadd => Some(x + y),
        InfixInst::Isub => Some(x - y),
        InfixInst::Imul => Some(x * y),
        InfixInst::Fdiv => None,
        InfixInst::Icmp(cc) => Some(flag(cond_holds(cc, x, y))),
    }
}

/// Whether a literal's type is signed.
pub open spec fn is_signed(v: IntValue) -> bool {
    v is I8 || v is I16 || v is I32 || v is I64
}

/// The operator symbols, character by character: no two are the same.
proof fn lemma_operator_symbols()
    ensures
        "+"@.len() == 1 && "+"@[0] == '+',
        "-"@.len() == 1 && "-"@[0] == '-',
        "*"@.len() == 1 && "*"@[0] == '*',
        "/"@.len() == 1 && "/"@[0] == '/',
        "=="@.len() == 2 && "=="@[0] == '=' && "=="@[1] == '=',
        "!="@.len() == 2 && "!="@[0] == '!' && "!="@[1] == '=',
        "<"@.len() == 1 && "<"@[0] == '<',
        ">"@.len() == 1 && ">"@[0] == '>',
        "<="@.len() == 2 && "<="@[0] == '<' && "<="@[1] == '=',
        ">="@.len() == 2 && ">="@[0] == '>' && ">="@[1] == '=',
{
    reveal_strlit("+");
    reveal_strlit("-");
    reveal_strlit("*");
    reveal_strlit("/");
    reveal_strlit("==");
    reveal_strlit("!=");
    reveal_strlit("<");
    reveal_strlit(">");
    reveal_strlit("<=");
    reveal_strlit(">=");
}

/// When an infix operation is computed by an instruction, the instruction
/// computes the operator: on every pair of operand values it gives what the
/// operator gives. `/` is applied as `fdiv`.
pub proof fn law_applied_instruction_computes_operator(
    op: Seq<char>,
    left: TypedExpression,
    right: TypedExpression,
    tys: Seq<Ty>,
    x: int,
    y: int,
)
    ensures
        infix_plan(op, left, right, tys) matches Some(InfixPlan::Apply(i)) ==> {
            &&& op == "/"@ ==> i == InfixInst::Fdiv
            &&& op != "/"@ ==> ant_op(op, x, y) is Some && eval_inst(i, x, y) == ant_op(op, x, y)
        },
{
    lemma_operator_symbols();
}

/// When an infix operation on two literals is folded, the constant is what
/// the operator gives on the literals' values: exactly, for a comparison (1
/// or 0, of type `i8`), and for arithmetic whose result fits in `i64` (of the
/// literals' type).
pub proof fn law_folded_constant_computes_operator(
    op: Seq<char>,
    left: TypedExpression,
    right: TypedExpression,
    tys: Seq<Ty>,
)
    ensures
        match infix_plan(op, left, right, tys) {
            Some(p) => !(p is Apply) && plan_defined(p, literal(left), literal(right)) ==> {
                let l = literal(left);
                let r = literal(right);
                &&& left is Int && right is Int
                &&& ant_op(op, int_value(l), int_value(r)) matches Some(v) && (v <= i64::MAX
                    ==> plan_constant(p, l, r).1 == v)
                &&& (p is FoldEq || p is FoldNe) ==> plan_constant(p, l, r).0 == ClifInt::I8
                &&& !(p is FoldEq || p is FoldNe) ==> plan_constant(p, l, r).0 == clif_type_of(l)
            },
            None => true,
        },
{
    lemma_operator_symbols();
}

/// A folded constant has the width of its literals' type: read as signed
/// for a signed literal and as unsigned otherwise, the Cranelift type holds
/// exactly the values of the literals' type.
pub proof fn law_folded_type_has_literal_width(op: FoldOp, l: IntValue, r: IntValue, x: int)
    ensures
        folded(op, l, r).0 == clif_type_of(l),
        ({
            let n = clif_modulus(clif_type_of(l));
            fits_kind(l, x) <==> if is_signed(l) {
                -(n / 2) <= x < n / 2
            } else {
                0 <= x < n
            }
        }),
{
}


/// Two integer literals under `+`, `-`, `*`, `==` or `!=` are folded, and
/// only such operations are: anything else is computed by an instruction or
/// has no plan.
pub proof fn law_literal_operations_fold(
    op: Seq<char>,
    left: TypedExpression,
    right: TypedExpression,
    tys: Seq<Ty>,
)
    ensures
        left is Int && right is Int && (op == "+"@ || op == "-"@ || op == "*"@ || op == "=="@ || op
            == "!="@) ==> (infix_plan(op, left, right, tys) is Some && !(infix_plan(
            op,
            left,
            right,
            tys,
        )->Some_0 is Apply)),
        (infix_plan(op, left, right, tys) is Some && !(infix_plan(op, left, right, tys)->Some_0 is Apply))
            ==> left is Int && right is Int && (op == "+"@ || op == "-"@ || op == "*"@ || op == "=="@
            || op == "!="@),
{
}

} // verus!
