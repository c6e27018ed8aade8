//! The decisions of the command-line driver: which target to compile for,
//! and whether a typed program is one the code generator accepts.
use vstd::prelude::*;
use vstd::string::{StrSliceExecFns, StringExecFns};
use crate::ast::{
    expr_size, params_tys_below, expr_tys_below, exprs_size, exprs_tys_below, lemma_exprs_elem, lemma_stmts_elem,
    spec_type_of, stmt_size, stmt_tys_below, stmts_size, stmts_tys_below, TypedExpression, TypedNode,
    TypedStatement,
};
use crate::wasm_gen_spec::{program_size, program_statements, program_tys_below};

verus! {

/// The target used when none is given.
pub open spec fn default_target() -> Seq<char> {
    "wasm32-unknown-unknown"@
}

/// Unicode's `White_Space` characters (what `char::is_whitespace` accepts).
pub open spec fn is_white_space(c: char) -> bool {
    ||| '\u{9}' <= c <= '\u{d}'
    ||| c == ' '
    ||| c == '\u{85}'
    ||| c == '\u{a0}'
    ||| c == '\u{1680}'
    ||| '\u{2000}' <= c <= '\u{200a}'
    ||| c == '\u{2028}'
    ||| c == '\u{2029}'
    ||| c == '\u{202f}'
    ||| c == '\u{205f}'
    ||| c == '\u{3000}'
}

/// A triple that is empty or only white space names no target.
pub open spec fn is_blank(s: Seq<char>) -> bool {
    forall|i: int| 0 <= i < s.len() ==> is_white_space(#[trigger] s[i])
}

fn char_is_white_space(c: char) -> (r: bool)
    ensures
        r == is_white_space(c),
{
    ('\u{9}' <= c && c <= '\u{d}') || c == ' ' || c == '\u{85}' || c == '\u{a0}' || c == '\u{1680}'
        || ('\u{2000}' <= c && c <= '\u{200a}') || c == '\u{2028}' || c == '\u{2029}' || c
        == '\u{202f}' || c == '\u{205f}' || c == '\u{3000}'
}

/// The target to compile for: the given triple, or the default wasm32 target
/// when the given one is blank.
pub fn resolve_target_triple(triple: &str) -> (t: String)
    ensures
        t@ == if is_blank(triple@) {
            default_target()
        } else {
            triple@
        },
{
    let n = triple.unicode_len();
    let mut i: usize = 0;
    while i < n
        invariant
            n == triple@.len(),
            i <= n,
            forall|j: int| 0 <= j < i ==> is_white_space(#[trigger] triple@[j]),
        decreases n - i,
    {
        if !char_is_white_space(triple.get_char(i)) {
            return String::from_str(triple);
        }
        i += 1;
    }
    String::from_str("wasm32-unknown-unknown")
}

/// Whether `s` begins with `prefix`.
pub fn starts_with(s: &str, prefix: &str) -> (r: bool)
    ensures
        r == (prefix@.len() <= s@.len() && s@.take(prefix@.len() as int) == prefix@),
{
    let n = s.unicode_len();
    let m = prefix.unicode_len();
    if m > n {
        return false;
    }
    let mut i: usize = 0;
    while i < m
        invariant
            n == s@.len(),
            m == prefix@.len(),
            m <= n,
            i <= m,
            forall|j: int| 0 <= j < i ==> s@[j] == prefix@[j],
        decreases m - i,
    {
        if s.get_char(i) != prefix.get_char(i) {
            assert(s@.take(m as int)[i as int] != prefix@[i as int]);
            return false;
        }
        i += 1;
    }
    assert(s@.take(m as int) =~= prefix@);
    true
}

/// Whether a target triple names a WebAssembly target.
pub fn is_wasm_target(triple: &str) -> (r: bool)
    ensures
        r == ((6 <= triple@.len() && triple@.take(6) == "wasm32"@) || (6 <= triple@.len()
            && triple@.take(6) == "wasm64"@)),
{
    proof {
        reveal_strlit("wasm32");
        reveal_strlit("wasm64");
    }
    starts_with(triple, "wasm32") || starts_with(triple, "wasm64")
}

/// One more than the largest size that the code generator accepts.
pub open spec fn size_cap() -> nat {
    0x1_0000_0000nat
}

pub open spec fn capped(n: nat) -> nat {
    if n < size_cap() {
        n
    } else {
        size_cap()
    }
}

/// Checks the type indices of an expression and measures it, up to the cap.
fn check_expr(e: &TypedExpression, n: usize) -> (r: (bool, u64))
    ensures
        r.0 == expr_tys_below(*e, n as nat),
        r.1 == capped(expr_size(*e)),
    decreases expr_size(*e), 1nat,
{
    let own = match e {
        TypedExpression::Int { .. } => e.get_type() < n,
        _ => true,
    };
    let (ok, size) = match e {
        TypedExpression::Call { func, args, .. } => {
            let a = check_expr(func, n);
            let b = check_exprs(args, e, n);
            (a.0 && b.0, add_capped(add_capped(1, a.1), b.1))
        },
        TypedExpression::Infix { left, right, .. } => {
            let a = check_expr(left, n);
            let b = check_expr(right, n);
            (left.get_type() < n && a.0 && b.0, add_capped(add_capped(1, a.1), b.1))
        },
        TypedExpression::BoolAnd { left, right, .. } => {
            let a = check_expr(left, n);
            let b = check_expr(right, n);
            (a.0 && b.0, add_capped(add_capped(1, a.1), b.1))
        },
        TypedExpression::BoolOr { left, right, .. } => {
            let a = check_expr(left, n);
            let b = check_expr(right, n);
            (a.0 && b.0, add_capped(add_capped(1, a.1), b.1))
        },
        TypedExpression::If { condition, consequence, else_block, .. } => {
            let a = check_expr(condition, n);
            let b = check_expr(consequence, n);
            let c = match else_block {
                Some(alt) => check_expr(alt, n),
                None => (true, 0),
            };
            (consequence.get_type() < n && a.0 && b.0 && c.0, add_capped(
                add_capped(add_capped(1, a.1), b.1),
                c.1,
            ))
        },
        TypedExpression::Block(stmts, _) => {
            let a = check_stmts_of_expr(stmts, e, n);
            (a.0, add_capped(1, a.1))
        },
        TypedExpression::Function { params, block, .. } => {
            let a = check_exprs(params, e, n);
            let b = check_expr(block, n);
            (block.get_type() < n && check_params(params, n) && a.0 && b.0, add_capped(
                add_capped(1, a.1),
                b.1,
            ))
        },
        _ => (true, 1),
    };
    (own && ok, size)
}

/// Whether the type index of every typed name among the parameters is below `n`.
fn check_params(params: &Vec<TypedExpression>, n: usize) -> (ok: bool)
    ensures
        ok == params_tys_below(params@, n as nat),
{
    let mut ok = true;
    let mut i: usize = 0;
    while i < params.len()
        invariant
            i <= params@.len(),
            ok == params_tys_below(params@.take(i as int), n as nat),
        decreases params@.len() - i,
    {
        assert(params@.take(i + 1).drop_last() =~= params@.take(i as int));
        let own = match &params[i] {
            TypedExpression::TypeHint(..) => params[i].get_type() < n,
            _ => true,
        };
        ok = ok && own;
        i += 1;
    }
    assert(params@.take(params@.len() as int) =~= params@);
    ok
}

/// `a + b`, up to the cap.
fn add_capped(a: u64, b: u64) -> (r: u64)
    requires
        a <= size_cap(),
        b <= size_cap(),
    ensures
        r == capped((a + b) as nat),
{
    if a + b < 0x1_0000_0000u64 {
        a + b
    } else {
        0x1_0000_0000u64
    }
}

/// Checks and measures the expressions of `parent`.
fn check_exprs(v: &Vec<TypedExpression>, parent: &TypedExpression, n: usize) -> (r: (bool, u64))
    requires
        exprs_size(v@) < expr_size(*parent),
    ensures
        r.0 == exprs_tys_below(v@, n as nat),
        r.1 == capped(exprs_size(v@)),
    decreases expr_size(*parent), 0nat,
{
    let mut ok = true;
    let mut size: u64 = 0;
    let mut i: usize = 0;
    assert(v@.take(0) =~= Seq::<TypedExpression>::empty());
    while i < v.len()
        invariant
            i <= v@.len(),
            exprs_size(v@) < expr_size(*parent),
            ok == exprs_tys_below(v@.take(i as int), n as nat),
            size == capped(exprs_size(v@.take(i as int))),
        decreases v@.len() - i,
    {
        proof {
            lemma_exprs_elem(v@, i as int, n as nat);
            assert(v@.take(i + 1).drop_last() =~= v@.take(i as int));
        }
        let c = check_expr(&v[i], n);
        ok = ok && c.0;
        size = add_capped(size, c.1);
        i += 1;
    }
    assert(v@.take(v@.len() as int) =~= v@);
    (ok, size)
}

/// Checks and measures the statements of the block expression `parent`.
fn check_stmts_of_expr(v: &Vec<TypedStatement>, parent: &TypedExpression, n: usize) -> (r: (bool, u64))
    requires
        stmts_size(v@) < expr_size(*parent),
    ensures
        r.0 == stmts_tys_below(v@, n as nat),
        r.1 == capped(stmts_size(v@)),
    decreases expr_size(*parent), 0nat,
{
    let mut ok = true;
    let mut size: u64 = 0;
    let mut i: usize = 0;
    assert(v@.take(0) =~= Seq::<TypedStatement>::empty());
    while i < v.len()
        invariant
            i <= v@.len(),
            stmts_size(v@) < expr_size(*parent),
            ok == stmts_tys_below(v@.take(i as int), n as nat),
            size == capped(stmts_size(v@.take(i as int))),
        decreases v@.len() - i,
    {
        proof {
            lemma_stmts_elem(v@, i as int, n as nat);
            assert(v@.take(i + 1).drop_last() =~= v@.take(i as int));
        }
        let c = check_stmt(&v[i], n);
        ok = ok && c.0;
        size = add_capped(size, c.1);
        i += 1;
    }
    assert(v@.take(v@.len() as int) =~= v@);
    (ok, size)
}

/// Checks the type indices of a statement and measures it, up to the cap.
fn check_stmt(st: &TypedStatement, n: usize) -> (r: (bool, u64))
    ensures
        r.0 == stmt_tys_below(*st, n as nat),
        r.1 == capped(stmt_size(*st)),
    decreases stmt_size(*st), 1nat,
{
    match st {
        TypedStatement::Let { value, ty, .. } => {
            let a = check_expr(value, n);
            (*ty < n && a.0, add_capped(1, a.1))
        },
        TypedStatement::ExpressionStatement(e) => {
            let a = check_expr(e, n);
            (e.get_type() < n && a.0, add_capped(1, a.1))
        },
        TypedStatement::Return { expr } => {
            let a = check_expr(expr, n);
            (a.0, add_capped(1, a.1))
        },
        TypedStatement::Block { statements } => {
            let a = check_stmts_of_stmt(statements, st, n);
            (a.0, add_capped(1, a.1))
        },
        TypedStatement::While { condition, block } => {
            let a = check_expr(condition, n);
            let b = check_stmt(block, n);
            (a.0 && b.0, add_capped(add_capped(1, a.1), b.1))
        },
        _ => (true, 1),
    }
}

/// Checks and measures the statements of the block statement `parent`.
fn check_stmts_of_stmt(v: &Vec<TypedStatement>, parent: &TypedStatement, n: usize) -> (r: (bool, u64))
    requires
        stmts_size(v@) < stmt_size(*parent),
    ensures
        r.0 == stmts_tys_below(v@, n as nat),
        r.1 == capped(stmts_size(v@)),
    decreases stmt_size(*parent), 0nat,
{
    let mut ok = true;
    let mut size: u64 = 0;
    let mut i: usize = 0;
    assert(v@.take(0) =~= Seq::<TypedStatement>::empty());
    while i < v.len()
        invariant
            i <= v@.len(),
            stmts_size(v@) < stmt_size(*parent),
            ok == stmts_tys_below(v@.take(i as int), n as nat),
            size == capped(stmts_size(v@.take(i as int))),
        decreases v@.len() - i,
    {
        proof {
            lemma_stmts_elem(v@, i as int, n as nat);
            assert(v@.take(i + 1).drop_last() =~= v@.take(i as int));
        }
        let c = check_stmt(&v[i], n);
        ok = ok && c.0;
        size = add_capped(size, c.1);
        i += 1;
    }
    assert(v@.take(v@.len() as int) =~= v@);
    (ok, size)
}

/// Whether every type index of the program is below `n` and the program has
/// at most `u32::MAX` nodes, as the code generator requires.
pub fn check_program(program: &TypedNode, n: usize) -> (ok: bool)
    ensures
        ok == (program_tys_below(*program, n as nat) && program_size(*program) <= u32::MAX),
{
    let statements = match program {
        TypedNode::Program { statements } => statements,
    };
    let mut ok = true;
    let mut size: u64 = 0;
    let mut i: usize = 0;
    assert(statements@.take(0) =~= Seq::<TypedStatement>::empty());
    while i < statements.len()
        invariant
            statements@ == program_statements(*program),
            i <= statements@.len(),
            ok == stmts_tys_below(statements@.take(i as int), n as nat),
            size == capped(stmts_size(statements@.take(i as int))),
        decreases statements@.len() - i,
    {
        proof {
            lemma_stmts_elem(statements@, i as int, n as nat);
            assert(statements@.take(i + 1).drop_last() =~= statements@.take(i as int));
        }
        let c = check_stmt(&statements[i], n);
        ok = ok && c.0;
        size = add_capped(size, c.1);
        i += 1;
    }
    assert(statements@.take(statements@.len() as int) =~= statements@);
    ok && size <= 0xffff_ffffu64
}

} // verus!
