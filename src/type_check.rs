//! Checks on types: instantiating a scheme with bound checks, unifying
//! concrete types, applying a function type, and validating the statements of
//! a body against an expected type.
use vstd::prelude::*;

use crate::type_builtins::{bound_queryable, bounds_of, satisfies_bound};
use crate::types::{
    types_view, var_names, ArrayType, Bound, ExpectedType, FunctionType, Scheme, SymbolPath, TupleType, Ty,
    Type, TypeScheme,
};

verus! {

/// A type error found while checking a declaration.
#[derive(Debug, PartialEq, Eq)]
pub enum TypeError {
    /// Two concrete types that cannot be unified.
    TypeMismatch { expected: Type, found: Type },
    /// A type variable that requires `bound` was given `ty`, which lacks it.
    BoundUnsatisfied { bound: Bound, ty: Type },
    /// A statement whose type the position does not allow.
    StatementTypeMismatch { expected: Type, found: Type },
    /// A call of something that is not a function.
    NotAFunction { found: Type },
    /// A call with the wrong number of arguments.
    WrongArgumentCount { params: usize, args: usize },
}

/// The first position at or after `i` of the variable called `n`, or -1.
pub open spec fn var_index_from(names: Seq<Seq<char>>, n: Seq<char>, i: int) -> int
    decreases names.len() - i,
{
    if i < 0 || i >= names.len() {
        -1
    } else if names[i] == n {
        i
    } else {
        var_index_from(names, n, i + 1)
    }
}

/// `t` with each variable of `names` replaced by the type at its position
/// in `args`.
pub open spec fn subst(t: Ty, names: Seq<Seq<char>>, args: Seq<Ty>) -> Ty
    decreases t,
{
    match t {
        Ty::Array(b, l) => Ty::Array(Box::new(subst(*b, names, args)), l),
        Ty::Tuple(items) => Ty::Tuple(
            Seq::new(
                items.len(),
                |i: int|
                    if 0 <= i < items.len() {
                        subst(items[i], names, args)
                    } else {
                        Ty::Bottom
                    },
            ),
        ),
        Ty::Function(ps, v) => Ty::Function(
            Seq::new(
                ps.len(),
                |i: int|
                    if 0 <= i < ps.len() {
                        subst(ps[i], names, args)
                    } else {
                        Ty::Bottom
                    },
            ),
            Box::new(subst(*v, names, args)),
        ),
        Ty::Var(n) => {
            let k = var_index_from(names, n, 0);
            if 0 <= k < args.len() {
                args[k]
            } else {
                t
            }
        },
        Ty::Named(p, Some(a)) => Ty::Named(
            p,
            Some(
                Seq::new(
                    a.len(),
                    |i: int|
                        if 0 <= i < a.len() {
                            subst(a[i], names, args)
                        } else {
                            Ty::Bottom
                        },
                ),
            ),
        ),
        _ => t,
    }
}

fn find_var(vars: &Vec<(String, Vec<Bound>)>, n: &String) -> (r: Option<usize>)
    ensures
        var_index_from(var_names(vars@), n@, 0) == match r {
            Some(k) => k as int,
            None => -1,
        },
{
    let ghost names = var_names(vars@);
    let mut i: usize = 0;
    while i < vars.len()
        invariant
            i <= vars@.len(),
            names == var_names(vars@),
            var_index_from(names, n@, 0) == var_index_from(names, n@, i as int),
        decreases vars@.len() - i,
    {
        if vars[i].0 == *n {
            return Some(i);
        }
        i += 1;
    }
    None
}

fn substitute_all(v: &Vec<Type>, vars: &Vec<(String, Vec<Bound>)>, args: &Vec<Type>) -> (r: Vec<
    Type,
>)
    ensures
        r@.len() == v@.len(),
        forall|k: int|
            0 <= k < v@.len() ==> #[trigger] r@[k]@ == subst(
                v@[k]@,
                var_names(vars@),
                types_view(*args),
            ),
    decreases v,
{
    let mut r: Vec<Type> = Vec::new();
    let mut i: usize = 0;
    while i < v.len()
        invariant
            i <= v@.len(),
            r@.len() == i,
            forall|k: int|
                0 <= k < i ==> #[trigger] r@[k]@ == subst(
                    v@[k]@,
                    var_names(vars@),
                    types_view(*args),
                ),
        decreases v@.len() - i,
    {
        proof {
            assert(decreases_to!(v => v@[i as int]));
        }
        r.push(substitute(&v[i], vars, args));
        i += 1;
    }
    r
}

/// `t` with the variables of `vars` replaced by the types at their positions
/// in `args`.
fn substitute(t: &Type, vars: &Vec<(String, Vec<Bound>)>, args: &Vec<Type>) -> (r: Type)
    ensures
        r@ == subst(t@, var_names(vars@), types_view(*args)),
    decreases t,
{
    let ghost names = var_names(vars@);
    let ghost av = types_view(*args);
    match t {
        Type::Array(a) => {
            let base = substitute(&a.base, vars, args);
            let r = Type::Array(ArrayType { base: Box::new(base), length: a.length });
            assert(t@ == Ty::Array(Box::new(a.base@), a.length));
            assert(r@ == Ty::Array(Box::new(base@), a.length));
            r
        },
        Type::Tuple(tt) => {
            let items = substitute_all(&tt.items, vars, args);
            assert forall|k: int| 0 <= k < items@.len() implies types_view(items)[k] == subst(
                types_view(tt.items)[k],
                names,
                av,
            ) by {
                assert(types_view(items)[k] == items@[k]@);
                assert(types_view(tt.items)[k] == tt.items@[k]@);
            }
            assert(t@ == Ty::Tuple(types_view(tt.items)));
            let ghost expected = match subst(t@, names, av) {
                Ty::Tuple(s) => s,
                _ => Seq::empty(),
            };
            assert(types_view(items) =~= expected);
            Type::Tuple(TupleType { items })
        },
        Type::Function(f) => {
            let params = substitute_all(&f.params, vars, args);
            let value = substitute(&f.value, vars, args);
            assert forall|k: int| 0 <= k < params@.len() implies types_view(params)[k] == subst(
                types_view(f.params)[k],
                names,
                av,
            ) by {
                assert(types_view(params)[k] == params@[k]@);
                assert(types_view(f.params)[k] == f.params@[k]@);
            }
            assert(t@ == Ty::Function(types_view(f.params), Box::new(f.value@)));
            let ghost expected = match subst(t@, names, av) {
                Ty::Function(s, _) => s,
                _ => Seq::empty(),
            };
            assert(types_view(params) =~= expected);
            let r = Type::Function(FunctionType { params, value: Box::new(value) });
            assert(r@ == Ty::Function(types_view(params), Box::new(value@)));
            r
        },
        Type::TypeVar(n) => {
            match find_var(vars, n) {
                Some(k) => {
                    if k < args.len() {
                        assert(av[k as int] == args@[k as int]@);
                        args[k].duplicate()
                    } else {
                        t.duplicate()
                    }
                },
                None => t.duplicate(),
            }
        },
        Type::NamedType(p, Some(a)) => {
            let items = substitute_all(a, vars, args);
            assert forall|k: int| 0 <= k < items@.len() implies types_view(items)[k] == subst(
                types_view(*a)[k],
                names,
                av,
            ) by {
                assert(types_view(items)[k] == items@[k]@);
                assert(types_view(*a)[k] == a@[k]@);
            }
            assert(t@ == Ty::Named(p@, Some(types_view(*a))));
            let ghost expected = match subst(t@, names, av) {
                Ty::Named(_, Some(s)) => s,
                _ => Seq::empty(),
            };
            assert(types_view(items) =~= expected);
            Type::NamedType(p.duplicate(), Some(items))
        },
        _ => t.duplicate(),
    }
}

/// Whether every bound that the variable at each position requires holds of
/// the type at that position in `args`.
pub open spec fn bounds_hold(bounds: Seq<Seq<Bound>>, args: Seq<Ty>) -> bool {
    forall|i: int, j: int|
        0 <= i < bounds.len() && 0 <= j < bounds[i].len() ==> #[trigger] bounds_of(
            args[i],
        ).contains(bounds[i][j])
}

/// Whether `scheme` may be instantiated with `args`: one type per variable,
/// and a type whose bounds can be asked for wherever a variable has bounds.
pub open spec fn instantiable(scheme: Scheme, args: Seq<Ty>) -> bool {
    &&& args.len() == scheme.names.len()
    &&& forall|i: int|
        0 <= i < args.len() && scheme.bounds[i].len() > 0 ==> bound_queryable(#[trigger] args[i])
}

/// The instance of `scheme` at `args`, or `None` where a bound does not hold.
pub open spec fn instance(scheme: Scheme, args: Seq<Ty>) -> Option<Ty> {
    if bounds_hold(scheme.bounds, args) {
        Some(subst(scheme.ty, scheme.names, args))
    } else {
        None
    }
}

/// Whether a value of type `found` may stand where `expected` is wanted:
/// the two are equal, or one of them is the type of expressions that never
/// return.
pub open spec fn compatible(expected: Ty, found: Ty) -> bool {
    expected == found || expected is Bottom || found is Bottom
}

/// The type of the result of calling a value of type `callee` with arguments
/// of types `args`, or `None` where the call does not type-check.
pub open spec fn application(callee: Ty, args: Seq<Ty>) -> Option<Ty> {
    match callee {
        Ty::Function(ps, v) => {
            let accepted = ps.len() == args.len() && (forall|i: int|
                0 <= i < ps.len() ==> #[trigger] compatible(ps[i], args[i]));
            if accepted {
                Some(*v)
            } else {
                None
            }
        },
        _ => None,
    }
}

/// Whether a statement of type `s` is allowed where `ty` is expected.
pub open spec fn statement_allowed(ty: Ty, allow_array: bool, s: Ty) -> bool {
    ||| s == ty
    ||| allow_array && (s matches Ty::Array(b, _) && *b == ty)
}

/// Whether a body whose statements have the types `stmts` is allowed.
pub open spec fn statements_allowed(
    ty: Ty,
    allow_array: bool,
    allow_empty: bool,
    stmts: Seq<Ty>,
) -> bool {
    &&& stmts.len() == 0 ==> allow_empty
    &&& forall|i: int| 0 <= i < stmts.len() ==> #[trigger] statement_allowed(ty, allow_array, stmts[i])
}

/// Instantiates `scheme` with `args`, one type per quantified variable,
/// after checking each variable's bounds against its type.
pub fn instantiate(scheme: &TypeScheme, args: &Vec<Type>) -> (r: Result<Type, TypeError>)
    requires
        instantiable(scheme@, types_view(*args)),
    ensures
        match r {
            Ok(t) => instance(scheme@, types_view(*args)) == Some(t@),
            Err(e) => {
                &&& instance(scheme@, types_view(*args)) is None
                &&& e matches TypeError::BoundUnsatisfied { bound, ty } && exists|i: int|
                    0 <= i < args@.len() && scheme@.bounds[i].contains(bound) && !bounds_of(
                        args@[i]@,
                    ).contains(bound) && #[trigger] args@[i]@ == ty@
            },
        },
{
    let ghost av = types_view(*args);
    let ghost bounds = scheme@.bounds;
    let mut i: usize = 0;
    while i < args.len()
        invariant
            i <= args@.len(),
            av == types_view(*args),
            bounds == scheme@.bounds,
            instantiable(scheme@, av),
            forall|a: int, j: int|
                0 <= a < i && 0 <= j < bounds[a].len() ==> #[trigger] bounds_of(av[a]).contains(
                    bounds[a][j],
                ),
        decreases args@.len() - i,
    {
        let required = &scheme.vars[i].1;
        assert(required@ == bounds[i as int]);
        assert(av[i as int] == args@[i as int]@);
        let mut j: usize = 0;
        while j < required.len()
            invariant
                i < args@.len(),
                j <= required@.len(),
                av == types_view(*args),
                required@ == bounds[i as int],
                bounds == scheme@.bounds,
                av[i as int] == args@[i as int]@,
                instantiable(scheme@, av),
                forall|a: int, k: int|
                    0 <= a < i && 0 <= k < bounds[a].len() ==> #[trigger] bounds_of(
                        av[a],
                    ).contains(bounds[a][k]),
                forall|k: int| 0 <= k < j ==> #[trigger] bounds_of(av[i as int]).contains(bounds[i as int][k]),
            decreases required@.len() - j,
        {
            let bound = required[j];
            assert(bound_queryable(av[i as int]));
            if !satisfies_bound(&args[i], bound) {
                assert(bounds[i as int][j as int] == bound);
                assert(!bounds_of(av[i as int]).contains(bounds[i as int][j as int]));
                assert(!bounds_hold(bounds, av));
                return Err(TypeError::BoundUnsatisfied { bound, ty: args[i].duplicate() });
            }
            j += 1;
        }
        i += 1;
    }
    assert(bounds_hold(bounds, av));
    Ok(substitute(&scheme.ty, &scheme.vars, args))
}

/// Unifies two concrete types: succeeds where `found` may stand for
/// `expected`.
pub fn unify(expected: &Type, found: &Type) -> (r: Result<(), TypeError>)
    ensures
        r is Ok <==> compatible(expected@, found@),
        r matches Err(e) ==> e matches TypeError::TypeMismatch { expected: x, found: y } && x@
            == expected@ && y@ == found@,
{
    let ok = match (expected, found) {
        (Type::Bottom, _) => true,
        (_, Type::Bottom) => true,
        _ => expected.same(found),
    };
    if ok {
        Ok(())
    } else {
        Err(TypeError::TypeMismatch { expected: expected.duplicate(), found: found.duplicate() })
    }
}

/// The type of the result of calling a value of type `callee` with
/// arguments of types `args`.
pub fn apply_function(callee: &Type, args: &Vec<Type>) -> (r: Result<Type, TypeError>)
    ensures
        match r {
            Ok(t) => application(callee@, types_view(*args)) == Some(t@),
            Err(e) => {
                &&& application(callee@, types_view(*args)) is None
                &&& match e {
                    TypeError::NotAFunction { found } => !(callee@ is Function) && found@
                        == callee@,
                    TypeError::WrongArgumentCount { params, args: n } => callee@ matches Ty::Function(
                        ps,
                        _,
                    ) && ps.len() == params && n == args@.len() && params != n,
                    TypeError::TypeMismatch { expected, found } => callee@ matches Ty::Function(
                        ps,
                        _,
                    ) && exists|i: int|
                        0 <= i < ps.len() && ps[i] == expected@ && #[trigger] types_view(
                            *args,
                        )[i] == found@ && !compatible(expected@, found@),
                    _ => false,
                }
            },
        },
{
    match callee {
        Type::Function(f) => {
            let ghost ps = types_view(f.params);
            let ghost av = types_view(*args);
            assert(callee@ == Ty::Function(ps, Box::new(f.value@)));
            assert(ps.len() == f.params@.len());
            assert(av.len() == args@.len());
            if f.params.len() != args.len() {
                return Err(
                    TypeError::WrongArgumentCount { params: f.params.len(), args: args.len() },
                );
            }
            let mut i: usize = 0;
            while i < args.len()
                invariant
                    i <= args@.len(),
                    f.params@.len() == args@.len(),
                    ps == types_view(f.params),
                    av == types_view(*args),
                    callee@ == Ty::Function(ps, Box::new(f.value@)),
                    ps.len() == f.params@.len(),
                    av.len() == args@.len(),
                    forall|k: int| 0 <= k < i ==> #[trigger] compatible(ps[k], av[k]),
                decreases args@.len() - i,
            {
                assert(ps[i as int] == f.params@[i as int]@);
                assert(av[i as int] == args@[i as int]@);
                match unify(&f.params[i], &args[i]) {
                    Ok(()) => {},
                    Err(e) => {
                        assert(!compatible(ps[i as int], av[i as int]));
                        assert(types_view(*args)[i as int] == args@[i as int]@);
                        assert(!(forall|k: int| 0 <= k < ps.len() ==> #[trigger] compatible(ps[k], av[k])));
                        assert(application(callee@, av) is None);
                        return Err(e);
                    },
                }
                i += 1;
            }
            Ok(f.value.duplicate())
        },
        _ => Err(TypeError::NotAFunction { found: callee.duplicate() }),
    }
}

/// Checks the types of the statements of a body against what the position
/// expects. An empty body that is not allowed is reported as a statement of
/// the unit type.
pub fn check_statements(expected: &ExpectedType, stmts: &Vec<Type>) -> (r: Result<(), TypeError>)
    ensures
        r is Ok <==> statements_allowed(
            expected.ty@,
            expected.allow_array,
            expected.allow_empty,
            types_view(*stmts),
        ),
        r matches Err(e) ==> e matches TypeError::StatementTypeMismatch { expected: x, found: y }
            && x@ == expected.ty@ && ((stmts@.len() == 0 && y@ == Ty::Tuple(seq![])) || exists|
            i: int,
        |
            0 <= i < stmts@.len() && #[trigger] types_view(*stmts)[i] == y@ && !statement_allowed(
                expected.ty@,
                expected.allow_array,
                y@,
            )),
{
    let ghost sv = types_view(*stmts);
    if stmts.len() == 0 && !expected.allow_empty {
        let items: Vec<Type> = Vec::new();
        assert(types_view(items) =~= seq![]);
        let unit = Type::Tuple(TupleType { items });
        assert(unit@ == Ty::Tuple(seq![]));
        return Err(TypeError::StatementTypeMismatch { expected: expected.ty.duplicate(), found: unit });
    }
    let mut i: usize = 0;
    while i < stmts.len()
        invariant
            i <= stmts@.len(),
            sv == types_view(*stmts),
            stmts@.len() == 0 ==> expected.allow_empty,
            forall|k: int|
                0 <= k < i ==> #[trigger] statement_allowed(
                    expected.ty@,
                    expected.allow_array,
                    sv[k],
                ),
        decreases stmts@.len() - i,
    {
        let s = &stmts[i];
        assert(sv[i as int] == s@);
        let allowed = if s.same(&expected.ty) {
            true
        } else if expected.allow_array {
            match s {
                Type::Array(a) => {
                    assert(s@ == Ty::Array(Box::new(a.base@), a.length));
                    a.base.same(&expected.ty)
                },
                _ => false,
            }
        } else {
            false
        };
        if !allowed {
            assert(!statement_allowed(expected.ty@, expected.allow_array, sv[i as int]));
            return Err(
                TypeError::StatementTypeMismatch { expected: expected.ty.duplicate(), found: s.duplicate() },
            );
        }
        i += 1;
    }
    Ok(())
}

} // verus!
