//! De Bruijn machinery: resolving names to indices, shifting indices under
//! binders, and capture-avoiding substitution.

pub mod convert;
pub mod shift;
pub mod substitution;
