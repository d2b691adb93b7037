//! Symbols: one ASCII alphabetic character followed by ASCII alphanumerics,
//! `-` or `_`. Leading white space is skipped.

use vstd::prelude::*;
use vstd::string::*;

use crate::arith::clamp_add_usize;
use crate::expression::buffer::{
    lemma_ws_end_bounds, skip_whitespace, ws_end, ParserResult, PositionedBuffer,
};

verus! {

/// A variable or constant name.
pub type Symbol = String;

/// True of the characters a symbol may start with: ASCII alphabetic.
pub open spec fn spec_is_symbol_start(c: char) -> bool {
    let u = c as u32;
    (0x41 <= u && u <= 0x5A) || (0x61 <= u && u <= 0x7A)
}

/// True of the characters a symbol may continue with: ASCII alphanumeric,
/// `-` or `_`.
pub open spec fn spec_is_symbol_char(c: char) -> bool {
    let u = c as u32;
    spec_is_symbol_start(c) || (0x30 <= u && u <= 0x39) || u == 0x2D || u == 0x5F
}

/// Decides [`spec_is_symbol_start`].
pub fn is_symbol_start(c: char) -> (b: bool)
    ensures
        b == spec_is_symbol_start(c),
{
    let u = c as u32;
    (0x41 <= u && u <= 0x5A) || (0x61 <= u && u <= 0x7A)
}

/// Decides [`spec_is_symbol_char`].
pub fn is_symbol_char(c: char) -> (b: bool)
    ensures
        b == spec_is_symbol_char(c),
{
    let u = c as u32;
    (0x41 <= u && u <= 0x5A) || (0x61 <= u && u <= 0x7A) || (0x30 <= u && u <= 0x39) || u == 0x2D
        || u == 0x5F
}

/// The position right after the run of symbol characters that starts at `pos`.
pub open spec fn symbol_end(s: Seq<char>, pos: int) -> int
    decreases s.len() - pos,
{
    if pos < 0 {
        pos
    } else if pos < s.len() && spec_is_symbol_char(s[pos]) {
        symbol_end(s, pos + 1)
    } else {
        pos
    }
}

/// The symbol run stays within the input and only moves forward.
pub proof fn lemma_symbol_end_bounds(s: Seq<char>, pos: int)
    requires
        0 <= pos <= s.len(),
    ensures
        pos <= symbol_end(s, pos) <= s.len(),
    decreases s.len() - pos,
{
    if pos < s.len() && spec_is_symbol_char(s[pos]) {
        lemma_symbol_end_bounds(s, pos + 1);
    }
}

/// What parsing a symbol at `pos` yields: its characters and the position
/// after them; `None` when, past the white space, no ASCII alphabetic
/// character stands at the front.
pub open spec fn spec_parse_symbol(s: Seq<char>, pos: int) -> Option<(Seq<char>, int)> {
    let w = ws_end(s, pos);
    if 0 <= w < s.len() && spec_is_symbol_start(s[w]) {
        let e = symbol_end(s, w + 1);
        Some((s.subrange(w, e), e))
    } else {
        None
    }
}

/// A parsed symbol is non-empty and strictly advances the position.
pub proof fn lemma_parse_symbol_advances(s: Seq<char>, pos: int)
    requires
        0 <= pos <= s.len(),
    ensures
        match spec_parse_symbol(s, pos) {
            Some((sym, e)) => pos < e <= s.len() && sym.len() >= 1,
            None => true,
        },
{
    lemma_ws_end_bounds(s, pos);
    let w = ws_end(s, pos);
    if 0 <= w < s.len() && spec_is_symbol_start(s[w]) {
        lemma_symbol_end_bounds(s, w + 1);
    }
}

/// Scans to the end of the symbol-character run that starts at `pos`.
pub fn scan_symbol_end(s: &str, pos: usize, n: usize) -> (r: usize)
    requires
        n == s@.len(),
        pos <= n,
    ensures
        r == symbol_end(s@, pos as int),
        pos <= r <= n,
{
    let mut i: usize = pos;
    loop
        invariant
            pos <= i <= n,
            n == s@.len(),
            symbol_end(s@, pos as int) == symbol_end(s@, i as int),
        decreases n - i,
    {
        if i < n && is_symbol_char(s.get_char(i)) {
            i = i + 1;
        } else {
            proof {
                lemma_symbol_end_bounds(s@, i as int);
            }
            return i;
        }
    }
}

/// Parses a symbol at character `pos` of `s`; yields its text and the
/// position after it.
pub fn parse_symbol_at(s: &str, pos: usize, n: usize) -> (r: Option<(Symbol, usize)>)
    requires
        n == s@.len(),
        pos <= n,
    ensures
        match r {
            Some((sym, e)) => {
                &&& spec_parse_symbol(s@, pos as int) == Some((sym@, e as int))
                &&& pos < e <= n
            },
            None => spec_parse_symbol(s@, pos as int) is None,
        },
{
    let w = skip_whitespace(s, pos, n);
    if w < n && is_symbol_start(s.get_char(w)) {
        let e = scan_symbol_end(s, w + 1, n);
        let sym = s.substring_char(w, e).to_owned();
        Some((sym, e))
    } else {
        None
    }
}

/// Recognises a [`Symbol`] at the front of the input.
pub struct SymbolParser;

impl SymbolParser {
    /// Parses one symbol; the rest of the input begins right after it.
    pub fn parse(&self, input: PositionedBuffer) -> (r: ParserResult<Symbol>)
        ensures
            match r {
                Ok((sym, rest)) => {
                    &&& spec_parse_symbol(input.buffer@, 0) matches Some((m, e))
                        && m == sym@
                        && rest.buffer@ == input.buffer@.subrange(e, input.buffer@.len() as int)
                        && rest.position == clamp_add_usize(input.position, e as usize)
                },
                Err(err) => spec_parse_symbol(input.buffer@, 0) is None,
            },
    {
        let n = input.buffer.as_str().unicode_len();
        match parse_symbol_at(input.buffer.as_str(), 0, n) {
            Some((sym, e)) => {
                let rest = input.seek(e);
                Ok((sym, rest))
            },
            None => {
                let w = skip_whitespace(input.buffer.as_str(), 0, n);
                let at = input.seek(w);
                Err(at.error("Invalid symbol."))
            },
        }
    }
}

} // verus!
