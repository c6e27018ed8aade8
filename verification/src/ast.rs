use vstd::prelude::*;

verus! {

/// Index of a type in a [`TypeContext`].
pub type TyId = usize;

/// Integer types of the source language.
#[derive(Clone, Copy, Debug, PartialEq, Eq, Structural)]
pub enum IntTy {
    I8,
    I16,
    I32,
    I64,
    U8,
    U16,
    U32,
    U64,
}

/// Types of the source language, as far as code generation distinguishes them.
#[derive(Clone, Copy, Debug, PartialEq, Eq, Structural)]
pub enum Ty {
    IntTy(IntTy),
    Bool,
    Str,
    Unit,
    Struct,
    Function,
}

/// An integer literal together with the integer type it was written at.
#[derive(Clone, Copy, Debug, PartialEq, Eq, Structural)]
pub enum IntValue {
    I8(i8),
    I16(i16),
    I32(i32),
    I64(i64),
    U8(u8),
    U16(u16),
    U32(u32),
    U64(u64),
}

/// A type-checked expression; `ty` is the index of its type in the type context.
#[derive(Debug, PartialEq, Eq)]
pub enum TypedExpression {
    Int { value: IntValue, ty: TyId },
    Bool { value: bool, ty: TyId },
    Str { value: String, ty: TyId },
    Ident(String, TyId),
    TypeHint(String, TyId),
    Call { func: Box<TypedExpression>, args: Vec<TypedExpression>, ty: TyId },
    Infix { left: Box<TypedExpression>, op: String, right: Box<TypedExpression>, ty: TyId },
    BoolAnd { left: Box<TypedExpression>, right: Box<TypedExpression>, ty: TyId },
    BoolOr { left: Box<TypedExpression>, right: Box<TypedExpression>, ty: TyId },
    If {
        condition: Box<TypedExpression>,
        consequence: Box<TypedExpression>,
        else_block: Option<Box<TypedExpression>>,
        ty: TyId,
    },
    Block(Vec<TypedStatement>, TyId),
    Function {
        name: Option<String>,
        params: Vec<TypedExpression>,
        block: Box<TypedExpression>,
        ty: TyId,
    },
}

/// A type-checked statement.
#[derive(Debug, PartialEq, Eq)]
pub enum TypedStatement {
    Let { name: String, value: TypedExpression, ty: TyId },
    ExpressionStatement(TypedExpression),
    Return { expr: TypedExpression },
    Block { statements: Vec<TypedStatement> },
    While { condition: TypedExpression, block: Box<TypedStatement> },
    Break,
    Continue,
}

/// A whole type-checked program.
#[derive(Debug, PartialEq, Eq)]
pub enum TypedNode {
    Program { statements: Vec<TypedStatement> },
}

/// The type of an expression (its `TyId`).
pub open spec fn spec_type_of(e: TypedExpression) -> TyId {
    match e {
        TypedExpression::Int { ty, .. } => ty,
        TypedExpression::Bool { ty, .. } => ty,
        TypedExpression::Str { ty, .. } => ty,
        TypedExpression::Ident(_, ty) => ty,
        TypedExpression::TypeHint(_, ty) => ty,
        TypedExpression::Call { ty, .. } => ty,
        TypedExpression::Infix { ty, .. } => ty,
        TypedExpression::BoolAnd { ty, .. } => ty,
        TypedExpression::BoolOr { ty, .. } => ty,
        TypedExpression::If { ty, .. } => ty,
        TypedExpression::Block(_, ty) => ty,
        TypedExpression::Function { ty, .. } => ty,
    }
}

impl TypedExpression {
    /// The type of this expression.
    pub fn get_type(&self) -> (r: TyId)
        ensures
            r == spec_type_of(*self),
    {
        match self {
            TypedExpression::Int { ty, .. } => *ty,
            TypedExpression::Bool { ty, .. } => *ty,
            TypedExpression::Str { ty, .. } => *ty,
            TypedExpression::Ident(_, ty) => *ty,
            TypedExpression::TypeHint(_, ty) => *ty,
            TypedExpression::Call { ty, .. } => *ty,
            TypedExpression::Infix { ty, .. } => *ty,
            TypedExpression::BoolAnd { ty, .. } => *ty,
            TypedExpression::BoolOr { ty, .. } => *ty,
            TypedExpression::If { ty, .. } => *ty,
            TypedExpression::Block(_, ty) => *ty,
            TypedExpression::Function { ty, .. } => *ty,
        }
    }
}

/// Number of nodes of an expression tree.
pub open spec fn expr_size(e: TypedExpression) -> nat
    decreases e,
{
    match e {
        TypedExpression::Call { func, args, .. } => 1 + expr_size(*func) + exprs_size(args@),
        TypedExpression::Infix { left, right, .. } => 1 + expr_size(*left) + expr_size(*right),
        TypedExpression::BoolAnd { left, right, .. } => 1 + expr_size(*left) + expr_size(*right),
        TypedExpression::BoolOr { left, right, .. } => 1 + expr_size(*left) + expr_size(*right),
        TypedExpression::If { condition, consequence, else_block, .. } => 1 + expr_size(*condition)
            + expr_size(*consequence) + match else_block {
            Some(b) => expr_size(*b),
            None => 0,
        },
        TypedExpression::Block(stmts, _) => 1 + stmts_size(stmts@),
        TypedExpression::Function { params, block, .. } => 1 + exprs_size(params@) + expr_size(
            *block,
        ),
        _ => 1,
    }
}

/// Number of nodes of a sequence of expressions.
pub open spec fn exprs_size(s: Seq<TypedExpression>) -> nat
    decreases s,
{
    if s.len() == 0 {
        0
    } else {
        exprs_size(s.drop_last()) + expr_size(s.last())
    }
}

/// Number of nodes of a statement tree.
pub open spec fn stmt_size(st: TypedStatement) -> nat
    decreases st,
{
    match st {
        TypedStatement::Let { value, .. } => 1 + expr_size(value),
        TypedStatement::ExpressionStatement(e) => 1 + expr_size(e),
        TypedStatement::Return { expr } => 1 + expr_size(expr),
        TypedStatement::Block { statements } => 1 + stmts_size(statements@),
        TypedStatement::While { condition, block } => 1 + expr_size(condition) + stmt_size(*block),
        _ => 1,
    }
}

/// Number of nodes of a sequence of statements.
pub open spec fn stmts_size(s: Seq<TypedStatement>) -> nat
    decreases s,
{
    if s.len() == 0 {
        0
    } else {
        stmts_size(s.drop_last()) + stmt_size(s.last())
    }
}

} // verus!

verus! {

/// Every type index that code generation reads in the expression is below
/// `n`: that of an integer literal, of the left operand of an infix
/// operation, of the consequence of an `if`, of a function's body and of its
/// typed parameters.
pub open spec fn expr_tys_below(e: TypedExpression, n: nat) -> bool
    decreases e,
{
    (e is Int ==> spec_type_of(e) < n) && match e {
        TypedExpression::Call { func, args, .. } => expr_tys_below(*func, n) && exprs_tys_below(
            args@,
            n,
        ),
        TypedExpression::Infix { left, right, .. } => spec_type_of(*left) < n && expr_tys_below(
            *left,
            n,
        ) && expr_tys_below(*right, n),
        TypedExpression::BoolAnd { left, right, .. } => expr_tys_below(*left, n)
            && expr_tys_below(*right, n),
        TypedExpression::BoolOr { left, right, .. } => expr_tys_below(*left, n) && expr_tys_below(
            *right,
            n,
        ),
        TypedExpression::If { condition, consequence, else_block, .. } => spec_type_of(*consequence)
            < n && expr_tys_below(*condition, n) && expr_tys_below(*consequence, n) && match else_block {
            Some(b) => expr_tys_below(*b, n),
            None => true,
        },
        TypedExpression::Block(stmts, _) => stmts_tys_below(stmts@, n),
        TypedExpression::Function { params, block, .. } => spec_type_of(*block) < n
            && params_tys_below(params@, n) && exprs_tys_below(params@, n) && expr_tys_below(
            *block,
            n,
        ),
        _ => true,
    }
}

/// The type index of every typed name among the parameters is below `n`.
pub open spec fn params_tys_below(s: Seq<TypedExpression>, n: nat) -> bool
    decreases s.len(),
{
    if s.len() == 0 {
        true
    } else {
        params_tys_below(s.drop_last(), n) && (s.last() is TypeHint ==> spec_type_of(s.last()) < n)
    }
}

/// Every type index in the expressions is below `n`.
pub open spec fn exprs_tys_below(s: Seq<TypedExpression>, n: nat) -> bool
    decreases s,
{
    if s.len() == 0 {
        true
    } else {
        exprs_tys_below(s.drop_last(), n) && expr_tys_below(s.last(), n)
    }
}

/// Every type index that code generation reads in the statement is below
/// `n`: also that of a `let` and of an expression statement.
pub open spec fn stmt_tys_below(st: TypedStatement, n: nat) -> bool
    decreases st,
{
    match st {
        TypedStatement::Let { value, ty, .. } => ty < n && expr_tys_below(value, n),
        TypedStatement::ExpressionStatement(e) => spec_type_of(e) < n && expr_tys_below(e, n),
        TypedStatement::Return { expr } => expr_tys_below(expr, n),
        TypedStatement::Block { statements } => stmts_tys_below(statements@, n),
        TypedStatement::While { condition, block } => expr_tys_below(condition, n)
            && stmt_tys_below(*block, n),
        _ => true,
    }
}

/// Every type index in the statements is below `n`.
pub open spec fn stmts_tys_below(s: Seq<TypedStatement>, n: nat) -> bool
    decreases s,
{
    if s.len() == 0 {
        true
    } else {
        stmts_tys_below(s.drop_last(), n) && stmt_tys_below(s.last(), n)
    }
}

pub proof fn lemma_exprs_elem(s: Seq<TypedExpression>, i: int, n: nat)
    requires
        0 <= i < s.len(),
    ensures
        expr_size(s[i]) <= exprs_size(s),
        exprs_size(s.take(i)) + expr_size(s[i]) <= exprs_size(s),
        exprs_tys_below(s, n) ==> expr_tys_below(s[i], n),
        exprs_tys_below(s, n) ==> exprs_tys_below(s.take(i), n),
    decreases s.len(),
{
    if i < s.len() - 1 {
        lemma_exprs_elem(s.drop_last(), i, n);
        assert(s.drop_last().take(i) =~= s.take(i));
    } else {
        assert(s.drop_last() =~= s.take(i));
    }
}

/// A typed parameter of parameters whose types are known has a known type.
pub proof fn lemma_params_elem(s: Seq<TypedExpression>, i: int, n: nat)
    requires
        0 <= i < s.len(),
        params_tys_below(s, n),
        s[i] is TypeHint,
    ensures
        spec_type_of(s[i]) < n,
    decreases s.len(),
{
    if i < s.len() - 1 {
        lemma_params_elem(s.drop_last(), i, n);
    }
}

pub proof fn lemma_stmts_elem(s: Seq<TypedStatement>, i: int, n: nat)
    requires
        0 <= i < s.len(),
    ensures
        stmt_size(s[i]) <= stmts_size(s),
        stmts_size(s.take(i)) + stmt_size(s[i]) <= stmts_size(s),
        stmts_tys_below(s, n) ==> stmt_tys_below(s[i], n),
        stmts_tys_below(s, n) ==> stmts_tys_below(s.take(i), n),
    decreases s.len(),
{
    if i < s.len() - 1 {
        lemma_stmts_elem(s.drop_last(), i, n);
        assert(s.drop_last().take(i) =~= s.take(i));
    } else {
        assert(s.drop_last() =~= s.take(i));
    }
}

/// The types of a program, indexed by [`TyId`].
pub struct TypeContext {
    types: Vec<Ty>,
}

impl View for TypeContext {
    type V = Seq<Ty>;

    closed spec fn view(&self) -> Seq<Ty> {
        self.types@
    }
}

impl TypeContext {
    /// An empty type context.
    pub fn new() -> (tcx: Self)
        ensures
            tcx@ == Seq::<Ty>::empty(),
    {
        TypeContext { types: Vec::new() }
    }

    /// Adds a type and returns its index.
    pub fn push(&mut self, ty: Ty) -> (id: TyId)
        ensures
            final(self)@ == old(self)@.push(ty),
            id == old(self)@.len(),
    {
        let id = self.types.len();
        self.types.push(ty);
        id
    }

    /// Number of types.
    pub fn len(&self) -> (n: usize)
        ensures
            n == self@.len(),
    {
        self.types.len()
    }

    /// The type with index `id`.
    pub fn get(&self, id: TyId) -> (ty: &Ty)
        requires
            id < self@.len(),
        ensures
            *ty == self@[id as int],
    {
        &self.types[id]
    }
}


/// 1 for true, 0 for false: how comparisons give their result.
pub open spec fn flag(b: bool) -> int {
    if b {
        1
    } else {
        0
    }
}

/// The quotient of `x` by `y`, rounded toward zero (0 when `y` is 0).
pub open spec fn quotient(x: int, y: int) -> int {
    if y == 0 {
        0
    } else {
        let q = (if x < 0 { -x } else { x }) / (if y < 0 { -y } else { y });
        if (x < 0) != (y < 0) {
            -q
        } else {
            q
        }
    }
}

/// What the binary operator written `op` computes on the integers `x` and
/// `y`: arithmetic, or a comparison that gives 1 when it holds and 0 when
/// not; `None` when `op` is not a binary operator of the language.
pub open spec fn ant_op(op: Seq<char>, x: int, y: int) -> Option<int> {
    if op == "+"@ {
        Some(x + y)
    } else if op == "-"@ {
        Some(x - y)
    } else if op == "*"@ {
        Some(x * y)
    } else if op == "/"@ {
        Some(quotient(x, y))
    } else if op == "=="@ {
        Some(flag(x == y))
    } else if op == "!="@ {
        Some(flag(x != y))
    } else if op == "<"@ {
        Some(flag(x < y))
    } else if op == ">"@ {
        Some(flag(x > y))
    } else if op == "<="@ {
        Some(flag(x <= y))
    } else if op == ">="@ {
        Some(flag(x >= y))
    } else {
        None
    }
}

} // verus!
