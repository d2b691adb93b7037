//! Constants: names drawn from a fixed list of choices, tried in order.

use vstd::prelude::*;
use vstd::string::*;

use crate::arith::clamp_add_usize;
use crate::expression::buffer::{ParserResult, PositionedBuffer};
use crate::expression::literal::{parse_literal_at, spec_parse_literal};
use crate::expression::symbol::Symbol;

verus! {

/// A constant: one of the defined choice names.
#[derive(Debug, PartialEq, Eq)]
pub struct Constant {
    pub symbol: Symbol,
}

impl From<Symbol> for Constant {
    fn from(value: Symbol) -> (c: Constant) {
        Constant { symbol: value }
    }
}

impl vstd::std_specs::convert::FromSpecImpl<Symbol> for Constant {
    open spec fn obeys_from_spec() -> bool {
        true
    }

    open spec fn from_spec(value: Symbol) -> Constant {
        Constant { symbol: value }
    }
}

/// What parsing a constant yields: the first of `choices` whose text stands
/// at the front, and the position after it.
pub open spec fn spec_parse_constant(s: Seq<char>, pos: int, choices: Seq<Seq<char>>) -> Option<
    (Seq<char>, int),
>
    decreases choices.len(),
{
    if choices.len() == 0 {
        None
    } else {
        match spec_parse_literal(s, pos, choices[0]) {
            Some(e) => Some((choices[0], e)),
            None => spec_parse_constant(s, pos, choices.subrange(1, choices.len() as int)),
        }
    }
}

/// Recognises a [`Constant`]: the first match among its choices wins.
pub struct ConstantParser {
    pub choices: Vec<String>,
}

impl ConstantParser {
    /// A parser over the given choice names.
    pub fn new(choices: Vec<String>) -> (p: ConstantParser)
        ensures
            p.choices == choices,
    {
        ConstantParser { choices }
    }

    /// Parses one constant.
    pub fn parse(&self, input: PositionedBuffer) -> (r: ParserResult<Constant>)
        ensures
            match r {
                Ok((c, rest)) => {
                    &&& spec_parse_constant(input.buffer@, 0, self.choices.deep_view())
                        matches Some((sym, e))
                        && c.symbol@ == sym
                        && rest.buffer@ == input.buffer@.subrange(e, input.buffer@.len() as int)
                        && rest.position == clamp_add_usize(input.position, e as usize)
                },
                Err(err) => spec_parse_constant(input.buffer@, 0, self.choices.deep_view())
                    is None,
            },
    {
        let n = input.buffer.as_str().unicode_len();
        proof {
            let all = self.choices.deep_view();
            assert(all.subrange(0, all.len() as int) =~= all);
        }
        let mut i: usize = 0;
        while i < self.choices.len()
            invariant
                0 <= i <= self.choices.len(),
                n == input.buffer@.len(),
                spec_parse_constant(input.buffer@, 0, self.choices.deep_view())
                    == spec_parse_constant(
                    input.buffer@,
                    0,
                    self.choices.deep_view().subrange(i as int, self.choices.deep_view().len() as int),
                ),
            decreases self.choices.len() - i,
        {
            let choice = &self.choices[i];
            let m = choice.as_str().unicode_len();
            match parse_literal_at(input.buffer.as_str(), 0, n, choice.as_str(), m) {
                Some(e) => {
                    proof {
                        let rest_choices = self.choices.deep_view().subrange(
                            i as int,
                            self.choices.deep_view().len() as int,
                        );
                        assert(rest_choices[0] == choice@);
                    }
                    let c = Constant { symbol: choice.clone() };
                    let rest = input.seek(e);
                    return Ok((c, rest));
                },
                None => {
                    proof {
                        let all = self.choices.deep_view();
                        assert(all.subrange(i as int, all.len() as int).subrange(
                            1,
                            all.len() - i,
                        ) =~= all.subrange(i + 1, all.len() as int));
                    }
                    i = i + 1;
                },
            }
        }
        Err(input.error("Invalid constant."))
    }
}

} // verus!
