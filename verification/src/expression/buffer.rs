//! The parser's input: a positioned view over the source text, and the error
//! type every parser returns. Positions count characters, not bytes.

use vstd::prelude::*;
use vstd::string::*;

use crate::arith::{clamp_add_usize, sat_add_usize};

verus! {

/// True of the characters the lexer skips before every token: the Unicode
/// white-space code points.
pub open spec fn spec_is_whitespace(c: char) -> bool {
    let u = c as u32;
    u == 0x09 || u == 0x0A || u == 0x0B || u == 0x0C || u == 0x0D || u == 0x20 || u == 0x85
        || u == 0xA0 || u == 0x1680 || (0x2000 <= u && u <= 0x200A) || u == 0x2028 || u == 0x2029
        || u == 0x202F || u == 0x205F || u == 0x3000
}

/// Decides [`spec_is_whitespace`].
pub fn is_whitespace_char(c: char) -> (b: bool)
    ensures
        b == spec_is_whitespace(c),
{
    let u = c as u32;
    u == 0x09 || u == 0x0A || u == 0x0B || u == 0x0C || u == 0x0D || u == 0x20 || u == 0x85
        || u == 0xA0 || u == 0x1680 || (0x2000 <= u && u <= 0x200A) || u == 0x2028 || u == 0x2029
        || u == 0x202F || u == 0x205F || u == 0x3000
}

/// The first position at or after `pos` that does not hold white space.
pub open spec fn ws_end(s: Seq<char>, pos: int) -> int
    decreases s.len() - pos,
{
    if pos < 0 {
        pos
    } else if pos < s.len() && spec_is_whitespace(s[pos]) {
        ws_end(s, pos + 1)
    } else {
        pos
    }
}

/// Skipping white space stays within the input and only moves forward.
pub proof fn lemma_ws_end_bounds(s: Seq<char>, pos: int)
    requires
        0 <= pos <= s.len(),
    ensures
        pos <= ws_end(s, pos) <= s.len(),
    decreases s.len() - pos,
{
    if pos < s.len() && spec_is_whitespace(s[pos]) {
        lemma_ws_end_bounds(s, pos + 1);
    }
}

/// Scans past the white-space prefix that starts at `pos`.
pub fn skip_whitespace(s: &str, pos: usize, n: usize) -> (r: usize)
    requires
        n == s@.len(),
        pos <= n,
    ensures
        r == ws_end(s@, pos as int),
        pos <= r <= n,
{
    let mut i: usize = pos;
    loop
        invariant
            pos <= i <= n,
            n == s@.len(),
            ws_end(s@, pos as int) == ws_end(s@, i as int),
        decreases n - i,
    {
        if i < n && is_whitespace_char(s.get_char(i)) {
            i = i + 1;
        } else {
            proof {
                lemma_ws_end_bounds(s@, i as int);
            }
            return i;
        }
    }
}

/// A parse error: a message and the character position where no production
/// matched.
#[derive(Debug)]
pub struct ParseError {
    pub message: String,
    pub position: usize,
}

/// What a parser yields: the parsed value and the rest of the input, or an
/// error.
pub type ParserResult<O> = Result<(O, PositionedBuffer), ParseError>;

/// A positioned view over the source: the text still to be consumed, and how
/// many characters were consumed before it.
pub struct PositionedBuffer {
    pub buffer: String,
    pub position: usize,
}

impl PositionedBuffer {
    /// A fresh buffer over the whole input.
    pub fn new(input: &str) -> (r: Self)
        ensures
            r.buffer@ == input@,
            r.position == 0,
    {
        PositionedBuffer { buffer: input.to_owned(), position: 0 }
    }

    /// Advances past the first `length` characters.
    pub fn seek(self, length: usize) -> (r: Self)
        requires
            length <= self.buffer@.len(),
        ensures
            r.buffer@ == self.buffer@.subrange(length as int, self.buffer@.len() as int),
            r.position == clamp_add_usize(self.position, length),
    {
        let n = self.buffer.as_str().unicode_len();
        let rest = self.buffer.as_str().substring_char(length, n).to_owned();
        PositionedBuffer { buffer: rest, position: sat_add_usize(self.position, length) }
    }

    /// Advances past the white-space prefix.
    pub fn seek_whitespace(self) -> (r: Self)
        ensures
            r.buffer@ == self.buffer@.subrange(ws_end(self.buffer@, 0), self.buffer@.len() as int),
            r.position == clamp_add_usize(self.position, ws_end(self.buffer@, 0) as usize),
    {
        let n = self.buffer.as_str().unicode_len();
        let k = skip_whitespace(self.buffer.as_str(), 0, n);
        self.seek(k)
    }

    /// Wraps a message into an error at the buffer's position.
    pub fn error(self, message: &str) -> (e: ParseError)
        ensures
            e.message@ == message@,
            e.position == self.position,
    {
        ParseError { message: message.to_owned(), position: self.position }
    }
}

} // verus!
