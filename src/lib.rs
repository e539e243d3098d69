//! Type system core of a polynomial-identity constraint language: the type
//! grammar, the capability bounds of elementary types, the catalogs of
//! built-in and operator type schemes, the reference-type transform and the
//! checks that instantiate, apply and validate types.
pub mod types;
pub mod type_builtins;
pub mod type_check;
pub mod laws;
