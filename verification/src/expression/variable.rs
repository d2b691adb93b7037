//! Variables: a symbolic name together with a De Bruijn index. Index `0`
//! means "not yet resolved"; after resolution an index `i >= 1` points to the
//! `i`-th enclosing binder, and an index above the local binder depth marks a
//! free variable.

use vstd::prelude::*;
use vstd::string::*;

use crate::arith::clamp_add_usize;
use crate::expression::buffer::{ParserResult, PositionedBuffer};
use crate::expression::symbol::parse_symbol_at;
use crate::expression::grammar::spec_parse_variable;
use crate::expression::ExprModel;

verus! {

/// A De Bruijn index. `1` is the innermost enclosing binder.
pub type DeBruijnIndex = u64;

/// The mathematical value of a [`Variable`]: its name and its index.
pub struct VarModel {
    pub symbol: Seq<char>,
    pub index: DeBruijnIndex,
}

/// A variable occurrence.
#[derive(Debug, PartialEq, Eq)]
pub struct Variable {
    pub symbol: String,
    pub index: DeBruijnIndex,
}

impl View for Variable {
    type V = VarModel;

    open spec fn view(&self) -> VarModel {
        VarModel { symbol: self.symbol@, index: self.index }
    }
}

impl Variable {
    /// A not-yet-resolved occurrence of `symbol`.
    pub fn new(symbol: &str) -> (v: Variable)
        ensures
            v@.symbol == symbol@,
            v@.index == 0,
    {
        Variable { symbol: symbol.to_owned(), index: 0 }
    }
}

impl Clone for Variable {
    fn clone(&self) -> (res: Self)
        ensures
            res == *self,
    {
        Variable { symbol: self.symbol.clone(), index: self.index }
    }
}

impl From<String> for Variable {
    fn from(value: String) -> (v: Variable) {
        Variable { symbol: value, index: 0 }
    }
}

impl vstd::std_specs::convert::FromSpecImpl<String> for Variable {
    open spec fn obeys_from_spec() -> bool {
        true
    }

    open spec fn from_spec(value: String) -> Variable {
        Variable { symbol: value, index: 0 }
    }
}

/// Recognises a [`Variable`] at the front of the input: a symbol, not yet
/// resolved.
pub struct VariableParser;

impl VariableParser {
    /// Parses one variable; its index is `0`.
    pub fn parse(&self, input: PositionedBuffer) -> (r: ParserResult<Variable>)
        ensures
            match r {
                Ok((v, rest)) => {
                    &&& spec_parse_variable(input.buffer@, 0) matches Some((m, e))
                        && m == ExprModel::Variable(v@)
                        && rest.buffer@ == input.buffer@.subrange(e, input.buffer@.len() as int)
                        && rest.position == clamp_add_usize(input.position, e as usize)
                },
                Err(err) => spec_parse_variable(input.buffer@, 0) is None,
            },
    {
        let n = input.buffer.as_str().unicode_len();
        match parse_symbol_at(input.buffer.as_str(), 0, n) {
            Some((sym, e)) => {
                let v = Variable { symbol: sym, index: 0 };
                let rest = input.seek(e);
                Ok((v, rest))
            },
            None => Err(input.error("Invalid variable.")),
        }
    }
}

} // verus!
