//! Applications: an applicator applied to an argument. Application is
//! left-associative: `a b c` is `(a b) c`.

use vstd::prelude::*;
use vstd::string::*;

use crate::arith::clamp_add_usize;
use crate::expression::buffer::{ParserResult, PositionedBuffer};
use crate::expression::grammar::{parse_application_at, spec_parse_application};
use crate::expression::{ExprModel, Expression};

verus! {

/// `applicator argument`.
#[derive(Debug, PartialEq)]
pub struct Application {
    pub applicator: Expression,
    pub argument: Expression,
}

impl Application {
    pub fn new(applicator: Expression, argument: Expression) -> (a: Application)
        ensures
            a.applicator == applicator,
            a.argument == argument,
    {
        Application { applicator, argument }
    }
}

/// Recognises an [`Application`] at the front of the input.
pub struct ApplicationParser;

impl ApplicationParser {
    /// Parses one application: at least two atoms, folded to the left.
    pub fn parse(&self, input: PositionedBuffer) -> (r: ParserResult<Application>)
        ensures
            match r {
                Ok((a, rest)) => {
                    &&& spec_parse_application(input.buffer@, 0) matches Some((m, e))
                        && m == ExprModel::Application {
                            applicator: Box::new(a.applicator@),
                            argument: Box::new(a.argument@),
                        }
                        && rest.buffer@ == input.buffer@.subrange(e, input.buffer@.len() as int)
                        && rest.position == clamp_add_usize(input.position, e as usize)
                },
                Err(err) => spec_parse_application(input.buffer@, 0) is None,
            },
    {
        let n = input.buffer.as_str().unicode_len();
        match parse_application_at(input.buffer.as_str(), 0, n) {
            Some((e, p)) => match e {
                Expression::Application(a) => {
                    let rest = input.seek(p);
                    Ok((*a, rest))
                },
                _ => unreached(),
            },
            None => Err(input.error("Invalid application.")),
        }
    }
}

} // verus!
