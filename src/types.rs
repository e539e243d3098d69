//! The type grammar and its mathematical model.
use vstd::prelude::*;

verus! {

/// A path such as `std::prelude::Constr`, one string per segment.
#[derive(Debug, PartialEq, Eq)]
pub struct SymbolPath {
    pub parts: Vec<String>,
}

/// An array type; `length` is `None` where the length is not known.
#[derive(Debug, PartialEq, Eq)]
pub struct ArrayType {
    pub base: Box<Type>,
    pub length: Option<u64>,
}

/// A tuple type.
#[derive(Debug, PartialEq, Eq)]
pub struct TupleType {
    pub items: Vec<Type>,
}

/// A function type: parameter types and the type of the returned value.
#[derive(Debug, PartialEq, Eq)]
pub struct FunctionType {
    pub params: Vec<Type>,
    pub value: Box<Type>,
}

/// A type of the language.
#[derive(Debug, PartialEq, Eq)]
pub enum Type {
    /// The type of expressions that never return.
    Bottom,
    Bool,
    Int,
    Fe,
    String,
    Expr,
    Col,
    Array(ArrayType),
    Tuple(TupleType),
    Function(FunctionType),
    TypeVar(String),
    NamedType(SymbolPath, Option<Vec<Type>>),
}

/// The mathematical value of a `Type`.
pub enum Ty {
    Bottom,
    Bool,
    Int,
    Fe,
    String,
    Expr,
    Col,
    Array(Box<Ty>, Option<u64>),
    Tuple(Seq<Ty>),
    Function(Seq<Ty>, Box<Ty>),
    Var(Seq<char>),
    Named(Seq<Seq<char>>, Option<Seq<Ty>>),
}

/// The segments of a path.
pub open spec fn path_view(p: SymbolPath) -> Seq<Seq<char>> {
    Seq::new(p.parts@.len(), |i: int| p.parts@[i]@)
}

/// The values of a list of types, position by position.
pub open spec fn types_view(v: Vec<Type>) -> Seq<Ty>
    decreases v,
{
    Seq::new(
        v@.len(),
        |i: int|
            if 0 <= i < v@.len() {
                type_view(v@[i])
            } else {
                Ty::Bottom
            },
    )
}

/// The value of a type.
pub open spec fn type_view(t: Type) -> Ty
    decreases t,
{
    match t {
        Type::Bottom => Ty::Bottom,
        Type::Bool => Ty::Bool,
        Type::Int => Ty::Int,
        Type::Fe => Ty::Fe,
        Type::String => Ty::String,
        Type::Expr => Ty::Expr,
        Type::Col => Ty::Col,
        Type::Array(a) => Ty::Array(Box::new(type_view(*a.base)), a.length),
        Type::Tuple(tt) => Ty::Tuple(types_view(tt.items)),
        Type::Function(f) => Ty::Function(types_view(f.params), Box::new(type_view(*f.value))),
        Type::TypeVar(n) => Ty::Var(n@),
        Type::NamedType(p, args) => Ty::Named(
            path_view(p),
            match args {
                None => None,
                Some(v) => Some(types_view(v)),
            },
        ),
    }
}

impl View for Type {
    type V = Ty;

    open spec fn view(&self) -> Ty {
        type_view(*self)
    }
}

impl View for SymbolPath {
    type V = Seq<Seq<char>>;

    open spec fn view(&self) -> Seq<Seq<char>> {
        path_view(*self)
    }
}

fn duplicate_all(v: &Vec<Type>) -> (r: Vec<Type>)
    ensures
        types_view(r) == types_view(*v),
    decreases v,
{
    let mut r: Vec<Type> = Vec::new();
    let mut i: usize = 0;
    while i < v.len()
        invariant
            i <= v@.len(),
            r@.len() == i,
            forall|k: int| 0 <= k < i ==> #[trigger] r@[k]@ == v@[k]@,
        decreases v@.len() - i,
    {
        proof {
            assert(decreases_to!(v => v@[i as int]));
        }
        r.push(v[i].duplicate());
        i += 1;
    }
    assert forall|k: int| 0 <= k < r@.len() implies types_view(r)[k] == types_view(*v)[k] by {
        assert(r@[k]@ == v@[k]@);
    }
    assert(types_view(r) =~= types_view(*v));
    r
}

fn same_all(a: &Vec<Type>, b: &Vec<Type>) -> (r: bool)
    ensures
        r == (types_view(*a) == types_view(*b)),
    decreases a,
{
    if a.len() != b.len() {
        assert(types_view(*a).len() != types_view(*b).len());
        return false;
    }
    let mut i: usize = 0;
    while i < a.len()
        invariant
            i <= a@.len(),
            a@.len() == b@.len(),
            forall|k: int| 0 <= k < i ==> #[trigger] a@[k]@ == b@[k]@,
        decreases a@.len() - i,
    {
        proof {
            assert(decreases_to!(a => a@[i as int]));
        }
        if !a[i].same(&b[i]) {
            assert(types_view(*a)[i as int] == a@[i as int]@);
            assert(types_view(*a)[i as int] != types_view(*b)[i as int]);
            return false;
        }
        i += 1;
    }
    assert forall|k: int| 0 <= k < a@.len() implies types_view(*a)[k] == types_view(*b)[k] by {
        assert(a@[k]@ == b@[k]@);
    }
    assert(types_view(*a) =~= types_view(*b));
    true
}

impl SymbolPath {
    /// A copy of this path with the same segments.
    pub fn duplicate(&self) -> (r: SymbolPath)
        ensures
            r@ == self@,
    {
        let mut parts: Vec<String> = Vec::new();
        let mut i: usize = 0;
        while i < self.parts.len()
            invariant
                i <= self.parts@.len(),
                parts@.len() == i,
                forall|k: int| 0 <= k < i ==> #[trigger] parts@[k]@ == self.parts@[k]@,
            decreases self.parts@.len() - i,
        {
            parts.push(self.parts[i].clone());
            i += 1;
        }
        let r = SymbolPath { parts };
        assert(r@ =~= self@);
        r
    }

    /// Whether two paths have the same segments.
    pub fn same(&self, other: &SymbolPath) -> (r: bool)
        ensures
            r == (self@ == other@),
    {
        if self.parts.len() != other.parts.len() {
            assert(self@.len() != other@.len());
            return false;
        }
        let mut i: usize = 0;
        while i < self.parts.len()
            invariant
                i <= self.parts@.len(),
                self.parts@.len() == other.parts@.len(),
                forall|k: int| 0 <= k < i ==> #[trigger] self.parts@[k]@ == other.parts@[k]@,
            decreases self.parts@.len() - i,
        {
            if self.parts[i] != other.parts[i] {
                assert(self@[i as int] != other@[i as int]);
                return false;
            }
            i += 1;
        }
        assert(self@ =~= other@);
        true
    }
}

impl Type {
    /// A copy of this type with the same value.
    pub fn duplicate(&self) -> (r: Type)
        ensures
            r@ == self@,
        decreases self,
    {
        match self {
            Type::Bottom => Type::Bottom,
            Type::Bool => Type::Bool,
            Type::Int => Type::Int,
            Type::Fe => Type::Fe,
            Type::String => Type::String,
            Type::Expr => Type::Expr,
            Type::Col => Type::Col,
            Type::Array(a) => Type::Array(
                ArrayType { base: Box::new(a.base.duplicate()), length: a.length },
            ),
            Type::Tuple(t) => Type::Tuple(TupleType { items: duplicate_all(&t.items) }),
            Type::Function(f) => Type::Function(
                FunctionType {
                    params: duplicate_all(&f.params),
                    value: Box::new(f.value.duplicate()),
                },
            ),
            Type::TypeVar(n) => Type::TypeVar(n.clone()),
            Type::NamedType(p, args) => {
                let args2 = match args {
                    None => None,
                    Some(v) => Some(duplicate_all(v)),
                };
                Type::NamedType(p.duplicate(), args2)
            },
        }
    }

    /// Structural equality: whether the two types have the same value.
    pub fn same(&self, other: &Type) -> (r: bool)
        ensures
            r == (self@ == other@),
        decreases self,
    {
        match (self, other) {
            (Type::Bottom, Type::Bottom) => true,
            (Type::Bool, Type::Bool) => true,
            (Type::Int, Type::Int) => true,
            (Type::Fe, Type::Fe) => true,
            (Type::String, Type::String) => true,
            (Type::Expr, Type::Expr) => true,
            (Type::Col, Type::Col) => true,
            (Type::Array(a), Type::Array(b)) => {
                let same_length = match (a.length, b.length) {
                    (None, None) => true,
                    (Some(x), Some(y)) => x == y,
                    _ => false,
                };
                same_length && a.base.same(&b.base)
            },
            (Type::Tuple(a), Type::Tuple(b)) => same_all(&a.items, &b.items),
            (Type::Function(a), Type::Function(b)) => {
                same_all(&a.params, &b.params) && a.value.same(&b.value)
            },
            (Type::TypeVar(a), Type::TypeVar(b)) => *a == *b,
            (Type::NamedType(p, a), Type::NamedType(q, b)) => {
                if !p.same(q) {
                    false
                } else {
                    match (a, b) {
                        (None, None) => true,
                        (Some(x), Some(y)) => same_all(x, y),
                        _ => false,
                    }
                }
            },
            _ => false,
        }
    }
}

/// A capability that a type variable may require of the type it stands for.
#[derive(Debug, Clone, Copy, PartialEq, Eq, Structural, Hash)]
pub enum Bound {
    ToString,
    FromLiteral,
    Add,
    Sub,
    Neg,
    Mul,
    Mod,
    Pow,
    Ord,
    Eq,
}

/// A binary operator of the language.
#[derive(Debug, Clone, Copy, PartialEq, Eq, Structural, Hash)]
pub enum BinaryOperator {
    Add,
    Sub,
    Mul,
    Div,
    Mod,
    Pow,
    ShiftLeft,
    ShiftRight,
    BinaryAnd,
    BinaryOr,
    BinaryXor,
    Less,
    LessEqual,
    Equal,
    Identity,
    NotEqual,
    GreaterEqual,
    Greater,
    LogicalOr,
    LogicalAnd,
}

/// A unary operator of the language.
#[derive(Debug, Clone, Copy, PartialEq, Eq, Structural, Hash)]
pub enum UnaryOperator {
    Minus,
    LogicalNot,
    Next,
}

/// A universally quantified type: each quantified variable with the bounds
/// it requires, and the body that may mention the variables.
#[derive(Debug, PartialEq, Eq)]
pub struct TypeScheme {
    pub vars: Vec<(String, Vec<Bound>)>,
    pub ty: Type,
}

/// The mathematical value of a `TypeScheme`: variable names and their
/// bounds, position by position, and the body.
pub struct Scheme {
    pub names: Seq<Seq<char>>,
    pub bounds: Seq<Seq<Bound>>,
    pub ty: Ty,
}

/// The names of quantified variables, position by position.
pub open spec fn var_names(vars: Seq<(String, Vec<Bound>)>) -> Seq<Seq<char>> {
    Seq::new(vars.len(), |i: int| vars[i].0@)
}

impl View for TypeScheme {
    type V = Scheme;

    open spec fn view(&self) -> Scheme {
        Scheme {
            names: var_names(self.vars@),
            bounds: Seq::new(self.vars@.len(), |i: int| self.vars@[i].1@),
            ty: self.ty@,
        }
    }
}

impl TypeScheme {
    /// A copy of this scheme with the same value.
    pub fn duplicate(&self) -> (r: TypeScheme)
        ensures
            r@ == self@,
    {
        let mut vars: Vec<(String, Vec<Bound>)> = Vec::new();
        let mut i: usize = 0;
        while i < self.vars.len()
            invariant
                i <= self.vars@.len(),
                vars@.len() == i,
                forall|k: int| 0 <= k < i ==> #[trigger] vars@[k].0@ == self.vars@[k].0@,
                forall|k: int| 0 <= k < i ==> #[trigger] vars@[k].1@ == self.vars@[k].1@,
            decreases self.vars@.len() - i,
        {
            let (name, bounds) = &self.vars[i];
            let mut copied: Vec<Bound> = Vec::new();
            let mut j: usize = 0;
            while j < bounds.len()
                invariant
                    j <= bounds@.len(),
                    copied@ == bounds@.subrange(0, j as int),
                decreases bounds@.len() - j,
            {
                copied.push(bounds[j]);
                j += 1;
            }
            assert(copied@ =~= bounds@);
            vars.push((name.clone(), copied));
            i += 1;
        }
        let r = TypeScheme { vars, ty: self.ty.duplicate() };
        assert(r@.names =~= self@.names);
        assert(r@.bounds =~= self@.bounds);
        r
    }
}

/// What a statement in a given position must have as its type: `ty`, or an
/// array of `ty` where `allow_array` holds; `allow_empty` admits a body with
/// no statements.
#[derive(Debug, PartialEq, Eq)]
pub struct ExpectedType {
    pub ty: Type,
    pub allow_array: bool,
    pub allow_empty: bool,
}

} // verus!
