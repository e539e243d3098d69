//! Laws that relate the functions of the type system, proved over their
//! mathematical models.
use vstd::prelude::*;

use crate::type_builtins::{
    binary_scheme_of, bound_queryable, bounds_of, builtin_table, constr_ty, fn_ty,
    reference_of, var_t,
};
use crate::type_check::{
    application, bounds_hold, compatible, instance, statement_allowed, statements_allowed, subst,
    var_index_from,
};
use crate::types::{BinaryOperator, Bound, Ty};

verus! {

/// The bounds of a type are determined by its value, and list no bound twice:
/// asking twice gives the same ordered set.
pub proof fn lemma_bounds_deterministic(t1: Ty, t2: Ty)
    requires
        bound_queryable(t1),
        t1 == t2,
    ensures
        bounds_of(t1) == bounds_of(t2),
        bounds_of(t1).no_duplicates(),
{
    let s = bounds_of(t1);
    assert forall|i: int, j: int| 0 <= i < s.len() && 0 <= j < s.len() && i != j implies s[i]
        != s[j] by {
        match t1 {
            Ty::Int => {
                assert(s =~= seq![
                    Bound::ToString,
                    Bound::FromLiteral,
                    Bound::Add,
                    Bound::Sub,
                    Bound::Neg,
                    Bound::Mul,
                    Bound::Mod,
                    Bound::Pow,
                    Bound::Ord,
                    Bound::Eq,
                ]);
            },
            _ => {},
        }
    }
}

/// Bounds are asked of the type a declaration has; a column, once referred
/// to, has the bounds of an expression.
pub proof fn lemma_reference_of_column_bounds()
    ensures
        bounds_of(reference_of(Ty::Col)) == bounds_of(Ty::Expr),
{
}

/// The rules of reference types: a column is referred to as an expression,
/// a sized array of columns or of expressions as an array of expressions of
/// unknown length, and other types, such as `int`, as themselves.
pub proof fn lemma_reference_rules(n: u64)
    ensures
        reference_of(Ty::Col) == Ty::Expr,
        reference_of(Ty::Array(Box::new(Ty::Col), Some(n))) == Ty::Array(Box::new(Ty::Expr), None),
        reference_of(Ty::Array(Box::new(Ty::Expr), Some(n))) == Ty::Array(
            Box::new(Ty::Expr),
            None,
        ),
        reference_of(Ty::Int) == Ty::Int,
{
}

proof fn lemma_one_bound(b: Bound, t: Ty)
    ensures
        bounds_hold(seq![seq![b]], seq![t]) == bounds_of(t).contains(b),
{
    let bounds = seq![seq![b]];
    let args = seq![t];
    assert(bounds.len() == 1 && bounds[0].len() == 1 && bounds[0][0] == b && args[0] == t);
    if bounds_of(t).contains(b) {
        assert forall|i: int, j: int|
            0 <= i < bounds.len() && 0 <= j < bounds[i].len() implies #[trigger] bounds_of(
            args[i],
        ).contains(bounds[i][j]) by {
            assert(i == 0 && j == 0);
        }
    } else {
        assert(!bounds_of(args[0]).contains(bounds[0][0]));
    }
}

proof fn lemma_no_bounds(t: Ty)
    ensures
        bounds_hold(seq![seq![]], seq![t]),
{
}

proof fn lemma_subst_t(t: Ty)
    ensures
        subst(var_t(), seq!["T"@], seq![t]) == t,
{
    assert(var_index_from(seq!["T"@], "T"@, 0) == 0);
}

proof fn lemma_subst_closed(t: Ty)
    ensures
        subst(fn_ty(seq![var_t(), var_t()], var_t()), seq!["T"@], seq![t]) == fn_ty(
            seq![t, t],
            t,
        ),
{
    lemma_subst_t(t);
    let ps = seq![var_t(), var_t()];
    let r = subst(fn_ty(ps, var_t()), seq!["T"@], seq![t]);
    let expected = match r {
        Ty::Function(s, _) => s,
        _ => Seq::empty(),
    };
    assert(expected[0] == subst(ps[0], seq!["T"@], seq![t]));
    assert(expected[1] == subst(ps[1], seq!["T"@], seq![t]));
    assert(expected =~= seq![t, t]);
}

/// Each instance of the scheme of `+` depends on its own type alone: two
/// instances at different types do not affect each other.
pub proof fn lemma_add_instances_independent(t1: Ty, t2: Ty)
    requires
        bounds_of(t1).contains(Bound::Add),
        bounds_of(t2).contains(Bound::Add),
    ensures
        instance(binary_scheme_of(BinaryOperator::Add), seq![t1]) == Some(fn_ty(seq![t1, t1], t1)),
        instance(binary_scheme_of(BinaryOperator::Add), seq![t2]) == Some(fn_ty(seq![t2, t2], t2)),
{
    lemma_subst_closed(t1);
    lemma_subst_closed(t2);
    lemma_one_bound(Bound::Add, t1);
    lemma_one_bound(Bound::Add, t2);
}

/// The variable of `<` requires `Ord`: `fe` lacks it, so the instance at `fe`
/// fails on that bound, while the instance at `int` is `int, int -> bool`.
pub proof fn lemma_less_requires_ord()
    ensures
        binary_scheme_of(BinaryOperator::Less).bounds == seq![seq![Bound::Ord]],
        !bounds_of(Ty::Fe).contains(Bound::Ord),
        instance(binary_scheme_of(BinaryOperator::Less), seq![Ty::Fe]) is None,
        instance(binary_scheme_of(BinaryOperator::Less), seq![Ty::Int]) == Some(
            fn_ty(seq![Ty::Int, Ty::Int], Ty::Bool),
        ),
{
    let s = binary_scheme_of(BinaryOperator::Less);
    let fe = bounds_of(Ty::Fe);
    assert(fe =~= seq![
        Bound::ToString,
        Bound::FromLiteral,
        Bound::Add,
        Bound::Sub,
        Bound::Neg,
        Bound::Mul,
        Bound::Pow,
        Bound::Eq,
    ]);
    assert(!fe.contains(Bound::Ord)) by {
        assert forall|i: int| 0 <= i < fe.len() implies fe[i] != Bound::Ord by {
            if i < 4 {
                assert(i == 0 || i == 1 || i == 2 || i == 3);
            } else {
                assert(i == 4 || i == 5 || i == 6 || i == 7);
            }
        }
    }
    lemma_one_bound(Bound::Ord, Ty::Fe);
    lemma_one_bound(Bound::Ord, Ty::Int);
    assert(s.bounds[0][0] == Bound::Ord);
    assert(bounds_of(Ty::Int)[8] == Bound::Ord);
    lemma_subst_t(Ty::Int);
    let ps = seq![var_t(), var_t()];
    let r = subst(s.ty, seq!["T"@], seq![Ty::Int]);
    let params = match r {
        Ty::Function(p, _) => p,
        _ => Seq::empty(),
    };
    assert(params[0] == subst(ps[0], seq!["T"@], seq![Ty::Int]));
    assert(params[1] == subst(ps[1], seq!["T"@], seq![Ty::Int]));
    assert(params =~= seq![Ty::Int, Ty::Int]);
    assert(subst(Ty::Bool, seq!["T"@], seq![Ty::Int]) == Ty::Bool);
    assert(r == fn_ty(seq![Ty::Int, Ty::Int], Ty::Bool));
}

/// Statements of `constr` functions: a body of constraints and arrays of
/// constraints is accepted, the empty body too, and a lone `bool` statement
/// is not.
pub proof fn lemma_constr_statements(stmts: Seq<Ty>)
    requires
        forall|i: int|
            0 <= i < stmts.len() ==> #[trigger] stmts[i] == constr_ty() || (stmts[i] matches Ty::Array(
                b,
                _,
            ) && *b == constr_ty()),
    ensures
        statements_allowed(constr_ty(), true, true, seq![]),
        statements_allowed(constr_ty(), true, true, stmts),
        !statements_allowed(constr_ty(), true, true, seq![Ty::Bool]),
{
    let lone = seq![Ty::Bool];
    assert(lone.len() == 1 && lone[0] == Ty::Bool);
    assert(!statement_allowed(constr_ty(), true, lone[0]));
}

/// `std::array::len` at `expr` has the type `expr[] -> int`, and applied to a
/// reference to a sized array of columns it gives `int`.
pub proof fn lemma_len_of_column_array(n: u64)
    ensures
        builtin_table()[0].0 == "std::array::len"@,
        instance(builtin_table()[0].1, seq![Ty::Expr]) == Some(
            fn_ty(seq![Ty::Array(Box::new(Ty::Expr), None)], Ty::Int),
        ),
        application(
            fn_ty(seq![Ty::Array(Box::new(Ty::Expr), None)], Ty::Int),
            seq![reference_of(Ty::Array(Box::new(Ty::Col), Some(n)))],
        ) == Some(Ty::Int),
{
    let s = builtin_table()[0].1;
    lemma_subst_t(Ty::Expr);
    let arr = Ty::Array(Box::new(var_t()), None);
    let r = subst(s.ty, seq!["T"@], seq![Ty::Expr]);
    assert(subst(arr, seq!["T"@], seq![Ty::Expr]) == Ty::Array(Box::new(Ty::Expr), None));
    let params = match r {
        Ty::Function(p, _) => p,
        _ => Seq::empty(),
    };
    assert(params[0] == subst(arr, seq!["T"@], seq![Ty::Expr]));
    assert(params =~= seq![Ty::Array(Box::new(Ty::Expr), None)]);
    assert(subst(Ty::Int, seq!["T"@], seq![Ty::Expr]) == Ty::Int);
    assert(r == fn_ty(seq![Ty::Array(Box::new(Ty::Expr), None)], Ty::Int));
    lemma_no_bounds(Ty::Expr);
    let args = seq![reference_of(Ty::Array(Box::new(Ty::Col), Some(n)))];
    assert(compatible(seq![Ty::Array(Box::new(Ty::Expr), None)][0], args[0]));
}

/// `std::check::panic` returns `!`, and a value of type `!` may stand for any
/// type, and any type for it.
pub proof fn lemma_bottom_unifies(t: Ty)
    ensures
        builtin_table()[1].0 == "std::check::panic"@,
        builtin_table()[1].1.ty == fn_ty(seq![Ty::String], Ty::Bottom),
        compatible(t, Ty::Bottom),
        compatible(Ty::Bottom, t),
{
}

} // verus!
