//! Literals: a parser that expects an exact piece of text, after optional
//! white space.

use vstd::prelude::*;
use vstd::string::*;

use crate::arith::clamp_add_usize;
use crate::expression::buffer::{
    lemma_ws_end_bounds, skip_whitespace, ws_end, ParserResult, PositionedBuffer,
};

verus! {

/// The text a literal parser matched.
pub type Literal = String;

/// True when the characters of `w` stand at position `pos` of `s`.
pub open spec fn prefix_at(s: Seq<char>, pos: int, w: Seq<char>) -> bool {
    0 <= pos && pos + w.len() <= s.len() && s.subrange(pos, pos + w.len()) == w
}

/// What matching the literal `w` at `pos` yields: the position after it,
/// after leading white space; `None` when the text there differs.
pub open spec fn spec_parse_literal(s: Seq<char>, pos: int, w: Seq<char>) -> Option<int> {
    let k = ws_end(s, pos);
    if prefix_at(s, k, w) {
        Some(k + w.len())
    } else {
        None
    }
}

/// A matched literal strictly advances the position when it is non-empty.
pub proof fn lemma_parse_literal_advances(s: Seq<char>, pos: int, w: Seq<char>)
    requires
        0 <= pos <= s.len(),
        w.len() >= 1,
    ensures
        match spec_parse_literal(s, pos, w) {
            Some(e) => pos < e <= s.len(),
            None => true,
        },
{
    lemma_ws_end_bounds(s, pos);
}

/// Whether the characters of `expected` stand at position `pos` of `s`.
pub fn text_matches_at(s: &str, pos: usize, n: usize, expected: &str, m: usize) -> (b: bool)
    requires
        n == s@.len(),
        m == expected@.len(),
        pos <= n,
    ensures
        b == prefix_at(s@, pos as int, expected@),
{
    if m > n - pos {
        return false;
    }
    let mut i: usize = 0;
    while i < m
        invariant
            0 <= i <= m,
            pos + m <= n,
            n == s@.len(),
            m == expected@.len(),
            forall|j: int| 0 <= j < i ==> s@[pos + j] == expected@[j],
        decreases m - i,
    {
        if s.get_char(pos + i) != expected.get_char(i) {
            assert(s@.subrange(pos as int, pos + m) != expected@) by {
                assert(s@.subrange(pos as int, pos + m)[i as int] == s@[pos + i]);
            }
            return false;
        }
        i = i + 1;
    }
    assert(s@.subrange(pos as int, pos + m) =~= expected@);
    true
}

/// Matches the literal `expected` at character `pos` of `s`; yields the
/// position after it.
pub fn parse_literal_at(s: &str, pos: usize, n: usize, expected: &str, m: usize) -> (r: Option<
    usize,
>)
    requires
        n == s@.len(),
        m == expected@.len(),
        pos <= n,
    ensures
        match r {
            Some(e) => spec_parse_literal(s@, pos as int, expected@) == Some(e as int) && e <= n,
            None => spec_parse_literal(s@, pos as int, expected@) is None,
        },
{
    let w = skip_whitespace(s, pos, n);
    if text_matches_at(s, w, n, expected, m) {
        Some(w + m)
    } else {
        None
    }
}

/// Expects one exact piece of text at the front of the input.
pub struct LiteralParser {
    pub expected: String,
}

impl LiteralParser {
    /// A parser for exactly `expected`.
    pub fn new(expected: &str) -> (p: LiteralParser)
        ensures
            p.expected@ == expected@,
    {
        LiteralParser { expected: expected.to_owned() }
    }

    /// Parses the expected text; yields it and the rest of the input.
    pub fn parse(&self, input: PositionedBuffer) -> (r: ParserResult<Literal>)
        ensures
            match r {
                Ok((lit, rest)) => {
                    &&& spec_parse_literal(input.buffer@, 0, self.expected@) matches Some(e)
                        && lit@ == self.expected@
                        && rest.buffer@ == input.buffer@.subrange(e, input.buffer@.len() as int)
                        && rest.position == clamp_add_usize(input.position, e as usize)
                },
                Err(err) => spec_parse_literal(input.buffer@, 0, self.expected@) is None,
            },
    {
        let n = input.buffer.as_str().unicode_len();
        let m = self.expected.as_str().unicode_len();
        match parse_literal_at(input.buffer.as_str(), 0, n, self.expected.as_str(), m) {
            Some(e) => {
                let lit = self.expected.clone();
                let rest = input.seek(e);
                Ok((lit, rest))
            },
            None => {
                let w = skip_whitespace(input.buffer.as_str(), 0, n);
                let at = input.seek(w);
                Err(at.error("Unexpected text at this position."))
            },
        }
    }
}

} // verus!
