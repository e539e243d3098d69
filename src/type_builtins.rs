//! Built-in knowledge of the type system: the bounds that elementary types
//! satisfy, the type of a reference to a declaration, and the type schemes of
//! built-in functions and operators.
use vstd::prelude::*;

use crate::types::{
    types_view, ArrayType, BinaryOperator, Bound, ExpectedType, FunctionType, Scheme, SymbolPath,
    Ty, Type, TypeScheme, UnaryOperator,
};

verus! {

/// Whether the bounds of `t` may be asked for: it is neither a type variable
/// nor a named type.
pub open spec fn bound_queryable(t: Ty) -> bool {
    !(t is Var) && !(t is Named)
}

/// The bounds that an elementary or structural type satisfies, in order.
pub open spec fn bounds_of(t: Ty) -> Seq<Bound> {
    match t {
        Ty::Bool => seq![Bound::ToString],
        Ty::Int => seq![
            Bound::ToString,
            Bound::FromLiteral,
            Bound::Add,
            Bound::Sub,
            Bound::Neg,
            Bound::Mul,
            Bound::Mod,
            Bound::Pow,
            Bound::Ord,
            Bound::Eq,
        ],
        Ty::Fe | Ty::Expr => seq![
            Bound::ToString,
            Bound::FromLiteral,
            Bound::Add,
            Bound::Sub,
            Bound::Neg,
            Bound::Mul,
            Bound::Pow,
            Bound::Eq,
        ],
        Ty::String => seq![Bound::ToString, Bound::Add, Bound::Eq],
        Ty::Array(_, _) => seq![Bound::Add],
        _ => seq![],
    }
}

/// The type of a reference to a declaration of type `t`: columns are used as
/// expressions, and arrays of columns or sized arrays of expressions are used
/// as arrays of expressions of unknown length.
pub open spec fn reference_of(t: Ty) -> Ty {
    match t {
        Ty::Col => Ty::Expr,
        Ty::Array(base, length) => {
            if *base == Ty::Col || (*base == Ty::Expr && length is Some) {
                Ty::Array(Box::new(Ty::Expr), None)
            } else {
                t
            }
        },
        _ => t,
    }
}

/// Returns the type used for a reference to a declaration.
pub fn type_for_reference(declared: &Type) -> (r: Type)
    ensures
        r@ == reference_of(declared@),
{
    match declared {
        Type::Col => Type::Expr,
        Type::Array(a) => {
            let widened = match (&*a.base, a.length) {
                (Type::Col, _) => true,
                (Type::Expr, Some(_)) => true,
                _ => false,
            };
            assert(declared@ == Ty::Array(Box::new(a.base@), a.length));
            assert(widened == (a.base@ == Ty::Col || (a.base@ == Ty::Expr && a.length is Some)));
            if widened {
                let r = Type::Array(ArrayType { base: Box::new(Type::Expr), length: None });
                assert(r@ == Ty::Array(Box::new(Type::Expr@), None));
                r
            } else {
                declared.duplicate()
            }
        },
        _ => declared.duplicate(),
    }
}

/// The bounds that an elementary or structural type satisfies. Type variables
/// and named types have to be resolved before their bounds are asked for.
pub fn elementary_type_bounds(ty: &Type) -> (r: Vec<Bound>)
    requires
        bound_queryable(ty@),
    ensures
        r@ == bounds_of(ty@),
{
    match ty {
        Type::Bool => single_bound(Bound::ToString),
        Type::Int => vec![
            Bound::ToString,
            Bound::FromLiteral,
            Bound::Add,
            Bound::Sub,
            Bound::Neg,
            Bound::Mul,
            Bound::Mod,
            Bound::Pow,
            Bound::Ord,
            Bound::Eq,
        ],
        Type::Fe | Type::Expr => vec![
            Bound::ToString,
            Bound::FromLiteral,
            Bound::Add,
            Bound::Sub,
            Bound::Neg,
            Bound::Mul,
            Bound::Pow,
            Bound::Eq,
        ],
        Type::String => vec![Bound::ToString, Bound::Add, Bound::Eq],
        Type::Array(_) => single_bound(Bound::Add),
        Type::Bottom | Type::Col | Type::Tuple(_) | Type::Function(_) => Vec::new(),
        Type::TypeVar(_) | Type::NamedType(_, _) => {
            assert(false);
            Vec::new()
        },
    }
}

/// Whether `ty` satisfies `bound`.
pub fn satisfies_bound(ty: &Type, bound: Bound) -> (r: bool)
    requires
        bound_queryable(ty@),
    ensures
        r == bounds_of(ty@).contains(bound),
{
    let bounds = elementary_type_bounds(ty);
    let mut i: usize = 0;
    while i < bounds.len()
        invariant
            i <= bounds@.len(),
            bounds@ == bounds_of(ty@),
            forall|k: int| 0 <= k < i ==> bounds@[k] != bound,
        decreases bounds@.len() - i,
    {
        if bounds[i] == bound {
            return true;
        }
        i += 1;
    }
    false
}

/// The quantified variable of the catalogued schemes.
pub open spec fn var_t() -> Ty {
    Ty::Var("T"@)
}

/// The function type from `params` to `value`.
pub open spec fn fn_ty(params: Seq<Ty>, value: Ty) -> Ty {
    Ty::Function(params, Box::new(value))
}

/// A scheme over the one variable `T`, which requires `bounds`.
pub open spec fn generic(bounds: Seq<Bound>, ty: Ty) -> Scheme {
    Scheme { names: seq!["T"@], bounds: seq![bounds], ty }
}

/// A scheme without quantified variables.
pub open spec fn mono(ty: Ty) -> Scheme {
    Scheme { names: seq![], bounds: seq![], ty }
}

/// The named type of constraints, `std::prelude::Constr`.
pub open spec fn constr_ty() -> Ty {
    Ty::Named(seq!["std"@, "prelude"@, "Constr"@], None)
}

/// The scheme of each binary operator.
pub open spec fn binary_scheme_of(op: BinaryOperator) -> Scheme {
    let t = var_t();
    match op {
        BinaryOperator::Add => generic(seq![Bound::Add], fn_ty(seq![t, t], t)),
        BinaryOperator::Sub => generic(seq![Bound::Sub], fn_ty(seq![t, t], t)),
        BinaryOperator::Mul => generic(seq![Bound::Mul], fn_ty(seq![t, t], t)),
        BinaryOperator::Pow => generic(seq![Bound::Pow], fn_ty(seq![t, Ty::Int], t)),
        BinaryOperator::Div | BinaryOperator::Mod | BinaryOperator::ShiftLeft
        | BinaryOperator::ShiftRight | BinaryOperator::BinaryAnd | BinaryOperator::BinaryOr
        | BinaryOperator::BinaryXor => mono(fn_ty(seq![Ty::Int, Ty::Int], Ty::Int)),
        BinaryOperator::Less | BinaryOperator::LessEqual | BinaryOperator::GreaterEqual
        | BinaryOperator::Greater => generic(seq![Bound::Ord], fn_ty(seq![t, t], Ty::Bool)),
        BinaryOperator::Equal | BinaryOperator::NotEqual => generic(
            seq![Bound::Eq],
            fn_ty(seq![t, t], Ty::Bool),
        ),
        BinaryOperator::Identity => mono(fn_ty(seq![Ty::Expr, Ty::Expr], constr_ty())),
        BinaryOperator::LogicalOr | BinaryOperator::LogicalAnd => mono(
            fn_ty(seq![Ty::Bool, Ty::Bool], Ty::Bool),
        ),
    }
}

/// The scheme of each unary operator.
pub open spec fn unary_scheme_of(op: UnaryOperator) -> Scheme {
    match op {
        UnaryOperator::Minus => generic(seq![Bound::Neg], fn_ty(seq![var_t()], var_t())),
        UnaryOperator::LogicalNot => mono(fn_ty(seq![Ty::Bool], Ty::Bool)),
        UnaryOperator::Next => mono(fn_ty(seq![Ty::Expr], Ty::Expr)),
    }
}

/// The built-in functions by their full names, with their schemes.
pub open spec fn builtin_table() -> Seq<(Seq<char>, Scheme)> {
    let t = var_t();
    seq![
        (
            "std::array::len"@,
            generic(seq![], fn_ty(seq![Ty::Array(Box::new(t), None)], Ty::Int)),
        ),
        ("std::check::panic"@, mono(fn_ty(seq![Ty::String], Ty::Bottom))),
        ("std::convert::expr"@, generic(seq![Bound::FromLiteral], fn_ty(seq![t], Ty::Expr))),
        ("std::convert::fe"@, generic(seq![Bound::FromLiteral], fn_ty(seq![t], Ty::Fe))),
        ("std::convert::int"@, generic(seq![Bound::FromLiteral], fn_ty(seq![t], Ty::Int))),
        ("std::debug::print"@, generic(seq![Bound::ToString], fn_ty(seq![t], Ty::Tuple(seq![])))),
        ("std::field::modulus"@, mono(fn_ty(seq![], Ty::Int))),
        ("std::prelude::challenge"@, mono(fn_ty(seq![Ty::Int, Ty::Int], Ty::Expr))),
        ("std::prover::degree"@, mono(fn_ty(seq![], Ty::Int))),
        ("std::prover::eval"@, mono(fn_ty(seq![Ty::Expr], Ty::Fe))),
    ]
}

/// The names and scheme values of a list of catalogue entries.
pub open spec fn entries_view(v: Seq<(String, TypeScheme)>) -> Seq<(Seq<char>, Scheme)> {
    Seq::new(v.len(), |i: int| (v[i].0@, v[i].1@))
}

fn type_var_t() -> (r: Type)
    ensures
        r@ == var_t(),
{
    Type::TypeVar(String::from_str("T"))
}

fn function_type(params: Vec<Type>, value: Type) -> (r: Type)
    ensures
        r@ == fn_ty(types_view(params), value@),
{
    Type::Function(FunctionType { params, value: Box::new(value) })
}

fn fn0(value: Type) -> (r: Type)
    ensures
        r@ == fn_ty(seq![], value@),
{
    let params: Vec<Type> = Vec::new();
    assert(types_view(params) =~= seq![]);
    function_type(params, value)
}

fn fn1(a: Type, value: Type) -> (r: Type)
    ensures
        r@ == fn_ty(seq![a@], value@),
{
    let ghost av = a@;
    let params = vec![a];
    assert(types_view(params)[0] == av);
    assert(types_view(params) =~= seq![av]);
    function_type(params, value)
}

fn fn2(a: Type, b: Type, value: Type) -> (r: Type)
    ensures
        r@ == fn_ty(seq![a@, b@], value@),
{
    let ghost av = a@;
    let ghost bv = b@;
    let params = vec![a, b];
    assert(types_view(params)[0] == av);
    assert(types_view(params)[1] == bv);
    assert(types_view(params) =~= seq![av, bv]);
    function_type(params, value)
}

fn single_bound(b: Bound) -> (r: Vec<Bound>)
    ensures
        r@ == seq![b],
{
    let mut r: Vec<Bound> = Vec::new();
    r.push(b);
    assert(r@ =~= seq![b]);
    r
}

fn generic_scheme(bounds: Vec<Bound>, ty: Type) -> (r: TypeScheme)
    ensures
        r@ == generic(bounds@, ty@),
{
    let r = TypeScheme { vars: vec![(String::from_str("T"), bounds)], ty };
    assert(r@.names =~= seq!["T"@]);
    assert(r@.bounds =~= seq![bounds@]);
    r
}

fn mono_scheme(ty: Type) -> (r: TypeScheme)
    ensures
        r@ == mono(ty@),
{
    let r = TypeScheme { vars: Vec::new(), ty };
    assert(r@.names =~= seq![]);
    assert(r@.bounds =~= seq![]);
    r
}

fn constr_type() -> (r: Type)
    ensures
        r@ == constr_ty(),
{
    let p = SymbolPath {
        parts: vec![
            String::from_str("std"),
            String::from_str("prelude"),
            String::from_str("Constr"),
        ],
    };
    assert(p@ =~= seq!["std"@, "prelude"@, "Constr"@]);
    Type::NamedType(p, None)
}

/// `T, T -> T` over `T: bound`.
fn closed_operation(bound: Bound) -> (r: TypeScheme)
    ensures
        r@ == generic(seq![bound], fn_ty(seq![var_t(), var_t()], var_t())),
{
    generic_scheme(single_bound(bound), fn2(type_var_t(), type_var_t(), type_var_t()))
}

/// `T, T -> bool` over `T: bound`.
fn comparison(bound: Bound) -> (r: TypeScheme)
    ensures
        r@ == generic(seq![bound], fn_ty(seq![var_t(), var_t()], Ty::Bool)),
{
    generic_scheme(single_bound(bound), fn2(type_var_t(), type_var_t(), Type::Bool))
}

/// `int, int -> int`.
fn integer_operation() -> (r: TypeScheme)
    ensures
        r@ == mono(fn_ty(seq![Ty::Int, Ty::Int], Ty::Int)),
{
    mono_scheme(fn2(Type::Int, Type::Int, Type::Int))
}

/// The scheme of a binary operator, as a fresh value.
pub fn binary_operator_scheme(op: BinaryOperator) -> (r: TypeScheme)
    ensures
        r@ == binary_scheme_of(op),
{
    match op {
        BinaryOperator::Add => closed_operation(Bound::Add),
        BinaryOperator::Sub => closed_operation(Bound::Sub),
        BinaryOperator::Mul => closed_operation(Bound::Mul),
        BinaryOperator::Pow => generic_scheme(
            single_bound(Bound::Pow),
            fn2(type_var_t(), Type::Int, type_var_t()),
        ),
        BinaryOperator::Div | BinaryOperator::Mod | BinaryOperator::ShiftLeft
        | BinaryOperator::ShiftRight | BinaryOperator::BinaryAnd | BinaryOperator::BinaryOr
        | BinaryOperator::BinaryXor => integer_operation(),
        BinaryOperator::Less | BinaryOperator::LessEqual | BinaryOperator::GreaterEqual
        | BinaryOperator::Greater => comparison(Bound::Ord),
        BinaryOperator::Equal | BinaryOperator::NotEqual => comparison(Bound::Eq),
        BinaryOperator::Identity => mono_scheme(fn2(Type::Expr, Type::Expr, constr_type())),
        BinaryOperator::LogicalOr | BinaryOperator::LogicalAnd => mono_scheme(
            fn2(Type::Bool, Type::Bool, Type::Bool),
        ),
    }
}

/// The scheme of a unary operator, as a fresh value.
pub fn unary_operator_scheme(op: UnaryOperator) -> (r: TypeScheme)
    ensures
        r@ == unary_scheme_of(op),
{
    match op {
        UnaryOperator::Minus => generic_scheme(single_bound(Bound::Neg), fn1(type_var_t(), type_var_t())),
        UnaryOperator::LogicalNot => mono_scheme(fn1(Type::Bool, Type::Bool)),
        UnaryOperator::Next => mono_scheme(fn1(Type::Expr, Type::Expr)),
    }
}

/// The schemes of the built-in functions, by full name.
pub fn builtin_schemes() -> (r: Vec<(String, TypeScheme)>)
    ensures
        entries_view(r@) == builtin_table(),
{
    let mut r: Vec<(String, TypeScheme)> = Vec::new();
    r.push(
        (
            String::from_str("std::array::len"),
            generic_scheme(
                Vec::new(),
                fn1(Type::Array(ArrayType { base: Box::new(type_var_t()), length: None }), Type::Int),
            ),
        ),
    );
    r.push((String::from_str("std::check::panic"), mono_scheme(fn1(Type::String, Type::Bottom))));
    r.push(
        (
            String::from_str("std::convert::expr"),
            generic_scheme(single_bound(Bound::FromLiteral), fn1(type_var_t(), Type::Expr)),
        ),
    );
    r.push(
        (
            String::from_str("std::convert::fe"),
            generic_scheme(single_bound(Bound::FromLiteral), fn1(type_var_t(), Type::Fe)),
        ),
    );
    r.push(
        (
            String::from_str("std::convert::int"),
            generic_scheme(single_bound(Bound::FromLiteral), fn1(type_var_t(), Type::Int)),
        ),
    );
    let items: Vec<Type> = Vec::new();
    assert(types_view(items) =~= seq![]);
    let unit = Type::Tuple(crate::types::TupleType { items });
    assert(unit@ == Ty::Tuple(seq![]));
    r.push(
        (
            String::from_str("std::debug::print"),
            generic_scheme(single_bound(Bound::ToString), fn1(type_var_t(), unit)),
        ),
    );
    r.push((String::from_str("std::field::modulus"), mono_scheme(fn0(Type::Int))));
    r.push(
        (
            String::from_str("std::prelude::challenge"),
            mono_scheme(fn2(Type::Int, Type::Int, Type::Expr)),
        ),
    );
    r.push((String::from_str("std::prover::degree"), mono_scheme(fn0(Type::Int))));
    r.push((String::from_str("std::prover::eval"), mono_scheme(fn1(Type::Expr, Type::Fe))));
    assert(entries_view(r@) =~= builtin_table());
    r
}

/// The scheme of the built-in function called `name`, if there is one.
pub fn builtin_scheme(name: &str) -> (r: Option<TypeScheme>)
    ensures
        r is None <==> forall|i: int| 0 <= i < builtin_table().len() ==> builtin_table()[i].0 != name@,
        r matches Some(s) ==> exists|i: int|
            0 <= i < builtin_table().len() && builtin_table()[i].0 == name@ && s@
                == builtin_table()[i].1,
{
    let table = builtin_schemes();
    let wanted = String::from_str(name);
    let mut i: usize = 0;
    while i < table.len()
        invariant
            i <= table@.len(),
            entries_view(table@) == builtin_table(),
            wanted@ == name@,
            forall|k: int| 0 <= k < i ==> builtin_table()[k].0 != name@,
        decreases table@.len() - i,
    {
        assert(entries_view(table@)[i as int] == (table@[i as int].0@, table@[i as int].1@));
        if table[i].0 == wanted {
            return Some(table[i].1.duplicate());
        }
        i += 1;
    }
    None
}

/// The type allowed at statement level in `constr` functions: the constraint
/// type or an array of it, and an empty body.
pub fn constr_function_statement_type() -> (r: ExpectedType)
    ensures
        r.ty@ == constr_ty(),
        r.allow_array,
        r.allow_empty,
{
    ExpectedType { ty: constr_type(), allow_array: true, allow_empty: true }
}

} // verus!
