use pil_types::type_builtins::{
    binary_operator_scheme, builtin_scheme, builtin_schemes, constr_function_statement_type,
    elementary_type_bounds, satisfies_bound, type_for_reference, unary_operator_scheme,
};
use pil_types::type_check::{apply_function, check_statements, instantiate, unify, TypeError};
use pil_types::types::{
    ArrayType, BinaryOperator, Bound, ExpectedType, FunctionType, SymbolPath, TupleType, Type,
    TypeScheme, UnaryOperator,
};

fn array(base: Type, length: Option<u64>) -> Type {
    Type::Array(ArrayType { base: Box::new(base), length })
}

fn function(params: Vec<Type>, value: Type) -> Type {
    Type::Function(FunctionType { params, value: Box::new(value) })
}

fn var_t() -> Type {
    Type::TypeVar("T".to_string())
}

fn constr() -> Type {
    Type::NamedType(
        SymbolPath { parts: vec!["std".to_string(), "prelude".to_string(), "Constr".to_string()] },
        None,
    )
}

fn unit() -> Type {
    Type::Tuple(TupleType { items: vec![] })
}

#[test]
fn reference_of_column_is_expr() {
    assert_eq!(type_for_reference(&Type::Col), Type::Expr);
}

#[test]
fn reference_of_column_array_drops_length() {
    assert_eq!(type_for_reference(&array(Type::Col, Some(4))), array(Type::Expr, None));
    assert_eq!(type_for_reference(&array(Type::Col, None)), array(Type::Expr, None));
}

#[test]
fn reference_of_sized_expr_array_drops_length() {
    assert_eq!(type_for_reference(&array(Type::Expr, Some(7))), array(Type::Expr, None));
}

#[test]
fn reference_of_other_types_is_unchanged() {
    assert_eq!(type_for_reference(&Type::Int), Type::Int);
    assert_eq!(type_for_reference(&array(Type::Int, Some(3))), array(Type::Int, Some(3)));
    let f = function(vec![Type::Col], Type::Col);
    assert_eq!(type_for_reference(&f), function(vec![Type::Col], Type::Col));
    assert_eq!(type_for_reference(&constr()), constr());
}

#[test]
fn bounds_of_each_elementary_type() {
    assert_eq!(elementary_type_bounds(&Type::Bottom), vec![]);
    assert_eq!(elementary_type_bounds(&Type::Bool), vec![Bound::ToString]);
    assert_eq!(
        elementary_type_bounds(&Type::Int),
        vec![
            Bound::ToString,
            Bound::FromLiteral,
            Bound::Add,
            Bound::Sub,
            Bound::Neg,
            Bound::Mul,
            Bound::Mod,
            Bound::Pow,
            Bound::Ord,
            Bound::Eq,
        ]
    );
    let field_like = vec![
        Bound::ToString,
        Bound::FromLiteral,
        Bound::Add,
        Bound::Sub,
        Bound::Neg,
        Bound::Mul,
        Bound::Pow,
        Bound::Eq,
    ];
    assert_eq!(elementary_type_bounds(&Type::Fe), field_like);
    assert_eq!(elementary_type_bounds(&Type::Expr), field_like);
    assert_eq!(elementary_type_bounds(&Type::String), vec![Bound::ToString, Bound::Add, Bound::Eq]);
    assert_eq!(elementary_type_bounds(&Type::Col), vec![]);
    assert_eq!(elementary_type_bounds(&array(Type::Int, None)), vec![Bound::Add]);
    assert_eq!(elementary_type_bounds(&unit()), vec![]);
    assert_eq!(elementary_type_bounds(&function(vec![], Type::Int)), vec![]);
}

#[test]
fn bounds_are_the_same_on_every_call() {
    for t in [Type::Bool, Type::Int, Type::Fe, Type::String, Type::Expr, Type::Col] {
        assert_eq!(elementary_type_bounds(&t), elementary_type_bounds(&t));
    }
}

#[test]
fn bounds_of_referenced_column_are_those_of_expr() {
    let referenced = type_for_reference(&Type::Col);
    assert_eq!(elementary_type_bounds(&referenced), elementary_type_bounds(&Type::Expr));
    assert_ne!(elementary_type_bounds(&Type::Col), elementary_type_bounds(&Type::Expr));
}

#[test]
fn satisfies_bound_follows_the_registry() {
    assert!(satisfies_bound(&Type::Int, Bound::Mod));
    assert!(!satisfies_bound(&Type::Fe, Bound::Mod));
    assert!(!satisfies_bound(&Type::Expr, Bound::Ord));
    assert!(satisfies_bound(&Type::String, Bound::Add));
    assert!(!satisfies_bound(&Type::Bool, Bound::Eq));
}

#[test]
fn add_instances_are_independent() {
    let scheme = binary_operator_scheme(BinaryOperator::Add);
    let first = binary_operator_scheme(BinaryOperator::Add);
    let second = binary_operator_scheme(BinaryOperator::Add);
    let at_int = instantiate(&first, &vec![Type::Int]).unwrap();
    let at_fe = instantiate(&second, &vec![Type::Fe]).unwrap();
    assert_eq!(at_int, function(vec![Type::Int, Type::Int], Type::Int));
    assert_eq!(at_fe, function(vec![Type::Fe, Type::Fe], Type::Fe));
    assert_eq!(first, scheme);
    assert_eq!(second, scheme);
    assert_eq!(binary_operator_scheme(BinaryOperator::Add), scheme);
}

#[test]
fn less_rejects_fe_and_accepts_int() {
    let less = binary_operator_scheme(BinaryOperator::Less);
    assert_eq!(
        instantiate(&less, &vec![Type::Fe]),
        Err(TypeError::BoundUnsatisfied { bound: Bound::Ord, ty: Type::Fe })
    );
    assert_eq!(
        instantiate(&less, &vec![Type::Int]),
        Ok(function(vec![Type::Int, Type::Int], Type::Bool))
    );
}

#[test]
fn operator_schemes_by_kind() {
    assert_eq!(
        binary_operator_scheme(BinaryOperator::Div),
        TypeScheme { vars: vec![], ty: function(vec![Type::Int, Type::Int], Type::Int) }
    );
    assert_eq!(
        binary_operator_scheme(BinaryOperator::Pow),
        TypeScheme {
            vars: vec![("T".to_string(), vec![Bound::Pow])],
            ty: function(vec![var_t(), Type::Int], var_t()),
        }
    );
    assert_eq!(
        binary_operator_scheme(BinaryOperator::NotEqual),
        TypeScheme {
            vars: vec![("T".to_string(), vec![Bound::Eq])],
            ty: function(vec![var_t(), var_t()], Type::Bool),
        }
    );
    assert_eq!(
        binary_operator_scheme(BinaryOperator::Identity),
        TypeScheme { vars: vec![], ty: function(vec![Type::Expr, Type::Expr], constr()) }
    );
    assert_eq!(
        binary_operator_scheme(BinaryOperator::LogicalAnd),
        TypeScheme { vars: vec![], ty: function(vec![Type::Bool, Type::Bool], Type::Bool) }
    );
    assert_eq!(
        unary_operator_scheme(UnaryOperator::Minus),
        TypeScheme {
            vars: vec![("T".to_string(), vec![Bound::Neg])],
            ty: function(vec![var_t()], var_t()),
        }
    );
    assert_eq!(
        unary_operator_scheme(UnaryOperator::Next),
        TypeScheme { vars: vec![], ty: function(vec![Type::Expr], Type::Expr) }
    );
    assert_eq!(
        unary_operator_scheme(UnaryOperator::LogicalNot),
        TypeScheme { vars: vec![], ty: function(vec![Type::Bool], Type::Bool) }
    );
}

#[test]
fn string_is_not_ordered() {
    let greater = binary_operator_scheme(BinaryOperator::Greater);
    assert_eq!(
        instantiate(&greater, &vec![Type::String]),
        Err(TypeError::BoundUnsatisfied { bound: Bound::Ord, ty: Type::String })
    );
    let minus = unary_operator_scheme(UnaryOperator::Minus);
    assert_eq!(instantiate(&minus, &vec![Type::Expr]), Ok(function(vec![Type::Expr], Type::Expr)));
}

#[test]
fn constr_statements_accept_constraints_and_empty_body() {
    let expected = constr_function_statement_type();
    assert_eq!(
        expected,
        ExpectedType { ty: constr(), allow_array: true, allow_empty: true }
    );
    assert_eq!(check_statements(&expected, &vec![]), Ok(()));
    assert_eq!(
        check_statements(
            &expected,
            &vec![constr(), array(constr(), None), array(constr(), Some(3))]
        ),
        Ok(())
    );
}

#[test]
fn constr_statements_reject_bool() {
    let expected = constr_function_statement_type();
    assert_eq!(
        check_statements(&expected, &vec![Type::Bool]),
        Err(TypeError::StatementTypeMismatch { expected: constr(), found: Type::Bool })
    );
}

#[test]
fn statements_without_arrays_or_empty_body() {
    let expected = ExpectedType { ty: Type::Int, allow_array: false, allow_empty: false };
    assert_eq!(
        check_statements(&expected, &vec![]),
        Err(TypeError::StatementTypeMismatch { expected: Type::Int, found: unit() })
    );
    assert_eq!(
        check_statements(&expected, &vec![Type::Int, array(Type::Int, None)]),
        Err(TypeError::StatementTypeMismatch { expected: Type::Int, found: array(Type::Int, None) })
    );
    assert_eq!(check_statements(&expected, &vec![Type::Int, Type::Int]), Ok(()));
}

#[test]
fn len_applied_to_column_array() {
    let len = builtin_scheme("std::array::len").unwrap();
    let signature = instantiate(&len, &vec![Type::Expr]).unwrap();
    assert_eq!(signature, function(vec![array(Type::Expr, None)], Type::Int));
    let argument = type_for_reference(&array(Type::Col, Some(5)));
    assert_eq!(argument, array(Type::Expr, None));
    assert_eq!(apply_function(&signature, &vec![argument]), Ok(Type::Int));
}

#[test]
fn panic_returns_bottom() {
    let panic = builtin_scheme("std::check::panic").unwrap();
    assert_eq!(panic.ty, function(vec![Type::String], Type::Bottom));
    let result = apply_function(&panic.ty, &vec![Type::String]).unwrap();
    assert_eq!(result, Type::Bottom);
    assert_eq!(unify(&Type::Int, &result), Ok(()));
    assert_eq!(unify(&result, &array(Type::Expr, None)), Ok(()));
    assert_eq!(unify(&constr(), &Type::Bottom), Ok(()));
}

#[test]
fn unify_rejects_different_types() {
    assert_eq!(
        unify(&Type::Int, &Type::Fe),
        Err(TypeError::TypeMismatch { expected: Type::Int, found: Type::Fe })
    );
    assert_eq!(
        unify(&array(Type::Expr, None), &array(Type::Expr, Some(2))),
        Err(TypeError::TypeMismatch {
            expected: array(Type::Expr, None),
            found: array(Type::Expr, Some(2)),
        })
    );
    assert_eq!(unify(&constr(), &constr()), Ok(()));
}

#[test]
fn apply_function_errors() {
    assert_eq!(
        apply_function(&Type::Int, &vec![]),
        Err(TypeError::NotAFunction { found: Type::Int })
    );
    let f = function(vec![Type::Int, Type::Int], Type::Expr);
    assert_eq!(
        apply_function(&f, &vec![Type::Int]),
        Err(TypeError::WrongArgumentCount { params: 2, args: 1 })
    );
    assert_eq!(
        apply_function(&f, &vec![Type::Int, Type::Bool]),
        Err(TypeError::TypeMismatch { expected: Type::Int, found: Type::Bool })
    );
    assert_eq!(apply_function(&f, &vec![Type::Bottom, Type::Int]), Ok(Type::Expr));
}

#[test]
fn builtin_table_names_and_lookup() {
    let names: Vec<String> = builtin_schemes().into_iter().map(|(n, _)| n).collect();
    assert_eq!(
        names,
        vec![
            "std::array::len",
            "std::check::panic",
            "std::convert::expr",
            "std::convert::fe",
            "std::convert::int",
            "std::debug::print",
            "std::field::modulus",
            "std::prelude::challenge",
            "std::prover::degree",
            "std::prover::eval",
        ]
    );
    assert_eq!(builtin_scheme("std::no::such"), None);
    let print = builtin_scheme("std::debug::print").unwrap();
    assert_eq!(
        print,
        TypeScheme {
            vars: vec![("T".to_string(), vec![Bound::ToString])],
            ty: function(vec![var_t()], unit()),
        }
    );
    let challenge = builtin_scheme("std::prelude::challenge").unwrap();
    assert_eq!(challenge.ty, function(vec![Type::Int, Type::Int], Type::Expr));
    let degree = builtin_scheme("std::prover::degree").unwrap();
    assert_eq!(degree.ty, function(vec![], Type::Int));
}

#[test]
fn convert_requires_from_literal() {
    let to_fe = builtin_scheme("std::convert::fe").unwrap();
    assert_eq!(instantiate(&to_fe, &vec![Type::Int]), Ok(function(vec![Type::Int], Type::Fe)));
    assert_eq!(
        instantiate(&to_fe, &vec![Type::String]),
        Err(TypeError::BoundUnsatisfied { bound: Bound::FromLiteral, ty: Type::String })
    );
}

#[test]
fn instantiate_substitutes_inside_structures() {
    let scheme = TypeScheme {
        vars: vec![("T".to_string(), vec![]), ("U".to_string(), vec![])],
        ty: Type::Tuple(TupleType {
            items: vec![array(var_t(), Some(2)), Type::TypeVar("U".to_string()), Type::TypeVar("V".to_string())],
        }),
    };
    assert_eq!(
        instantiate(&scheme, &vec![Type::Fe, constr()]),
        Ok(Type::Tuple(TupleType {
            items: vec![array(Type::Fe, Some(2)), constr(), Type::TypeVar("V".to_string())],
        }))
    );
}

#[test]
fn same_and_duplicate() {
    let t = function(vec![array(Type::Col, Some(3)), constr()], unit());
    assert!(t.same(&t.duplicate()));
    assert_eq!(t.duplicate(), t);
    assert!(!t.same(&function(vec![array(Type::Col, Some(4)), constr()], unit())));
    assert!(!Type::TypeVar("T".to_string()).same(&Type::TypeVar("U".to_string())));
}
