//! Traversals over terms: De Bruijn conversion, shifting and substitution,
//! and the pretty printer.

pub mod de_bruijn;
pub mod pretty_print;
