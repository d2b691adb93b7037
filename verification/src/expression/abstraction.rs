//! Abstractions: a bound parameter and a body, optionally annotated with a
//! parameter type for the simply-typed surface.

use vstd::prelude::*;
use vstd::string::*;

use crate::arith::clamp_add_usize;
use crate::expression::buffer::{ParserResult, PositionedBuffer};
use crate::expression::grammar::{parse_abs_untyped_at, spec_parse_abs_untyped};
use crate::expression::variable::Variable;
use crate::expression::{ExprModel, Expression};

verus! {

/// `λparameter. body`.
#[derive(Debug, PartialEq)]
pub struct Abstraction {
    pub parameter: Variable,
    pub body: Expression,
}

impl Abstraction {
    pub fn new(parameter: Variable, body: Expression) -> (a: Abstraction)
        ensures
            a.parameter == parameter,
            a.body == body,
    {
        Abstraction { parameter, body }
    }
}

/// `λparameter:parameter_type. body` — parsed and printed for the simply-typed
/// surface; the untyped reducer ignores the type slot.
#[derive(Debug, PartialEq)]
pub struct TypedAbstraction {
    pub parameter: Variable,
    pub parameter_type: Expression,
    pub body: Expression,
}

/// Recognises an untyped [`Abstraction`] at the front of the input.
pub struct AbstractionParser;

impl AbstractionParser {
    /// Parses one abstraction: a mark, parameters, a dot and the body.
    pub fn parse(&self, input: PositionedBuffer) -> (r: ParserResult<Abstraction>)
        ensures
            match r {
                Ok((a, rest)) => {
                    &&& spec_parse_abs_untyped(input.buffer@, 0) matches Some((m, e))
                        && m == ExprModel::Abstraction {
                            parameter: a.parameter@,
                            body: Box::new(a.body@),
                        }
                        && rest.buffer@ == input.buffer@.subrange(e, input.buffer@.len() as int)
                        && rest.position == clamp_add_usize(input.position, e as usize)
                },
                Err(err) => spec_parse_abs_untyped(input.buffer@, 0) is None,
            },
    {
        let n = input.buffer.as_str().unicode_len();
        match parse_abs_untyped_at(input.buffer.as_str(), 0, n) {
            Some((e, p)) => match e {
                Expression::Abstraction(a) => {
                    let rest = input.seek(p);
                    Ok((*a, rest))
                },
                _ => unreached(),
            },
            None => Err(input.error("Invalid abstraction.")),
        }
    }
}

} // verus!
