//! Core of an interpreter for the untyped (and, on the surface, simply-typed)
//! lambda calculus: a parser for lambda expressions, a resolver that turns
//! variable names into De Bruijn indices, capture-avoiding shifting and
//! substitution, call-by-value and normal-order beta-reduction, and a
//! pretty-printer with three output modes.

pub mod arith;
pub mod eval;
pub mod expression;
pub mod term;
pub mod traverse;
pub mod typecheck;
