//! The grammar of lambda expressions and its recursive-descent parser.
//!
//! ```text
//! term        := abstraction | application | atom
//! atom        := '(' term ')' | abstraction | variable
//! abstraction := ('λ' | '@' | '\') symbol+ '.' term
//!              | ('λ' | '@' | '\') typed-param (',' typed-param)* '.' term
//! typed-param := symbol ':' term
//! application := atom atom+
//! variable    := symbol
//! ```
//!
//! Multi-parameter abstractions desugar into nested abstractions; multi-
//! argument applications fold to the left. The descent is ordered so that no
//! production recurses at the same position into itself: every cycle through
//! `term` first consumes at least one character.

use vstd::prelude::*;
use vstd::string::*;

use crate::arith::clamp_add_usize;
use crate::expression::buffer::{skip_whitespace, ws_end, ParserResult, PositionedBuffer};
use crate::expression::symbol::{parse_symbol_at, spec_parse_symbol};
use crate::expression::variable::{VarModel, Variable};
use crate::expression::abstraction::{Abstraction, TypedAbstraction};
use crate::expression::application::Application;
use crate::expression::{ExprModel, Expression};

verus! {

/// The characters that open an abstraction.
pub open spec fn spec_lambda_mark(c: char) -> bool {
    c == 'λ' || c == '@' || c == '\\'
}

/// What matching the single character `c` at `pos` yields: the position after
/// it, past leading white space.
pub open spec fn spec_parse_one_char(s: Seq<char>, pos: int, c: char) -> Option<int> {
    let k = ws_end(s, pos);
    if 0 <= k < s.len() && s[k] == c {
        Some(k + 1)
    } else {
        None
    }
}

/// Like [`spec_parse_one_char`], for any of the three abstraction marks.
pub open spec fn spec_parse_lambda_mark(s: Seq<char>, pos: int) -> Option<int> {
    let k = ws_end(s, pos);
    if 0 <= k < s.len() && spec_lambda_mark(s[k]) {
        Some(k + 1)
    } else {
        None
    }
}

/// What parsing a variable at `pos` yields: a symbol with index `0`.
pub open spec fn spec_parse_variable(s: Seq<char>, pos: int) -> Option<(ExprModel, int)> {
    match spec_parse_symbol(s, pos) {
        Some((sym, e)) => Some((ExprModel::Variable(VarModel { symbol: sym, index: 0 }), e)),
        None => None,
    }
}

/// The rest of an untyped abstraction after its mark: one or more parameters,
/// a dot, and the body. `λ x y. B` nests to the right: `λx. λy. B`.
pub open spec fn spec_parse_params_tail(s: Seq<char>, pos: int) -> Option<(ExprModel, int)>
    decreases s.len() - pos, 0int,
{
    if !(0 <= pos <= s.len()) {
        None
    } else {
        match spec_parse_symbol(s, pos) {
            None => None,
            Some((sym, e)) => if pos < e <= s.len() {
                let parameter = VarModel { symbol: sym, index: 0 };
                match spec_parse_params_tail(s, e) {
                    Some((rest, e2)) => Some(
                        (ExprModel::Abstraction { parameter, body: Box::new(rest) }, e2),
                    ),
                    None => match spec_parse_one_char(s, e, '.') {
                        None => None,
                        Some(d) => if pos < d <= s.len() {
                            match spec_parse_term(s, d) {
                                None => None,
                                Some((body, e2)) => Some(
                                    (
                                        ExprModel::Abstraction {
                                            parameter,
                                            body: Box::new(body),
                                        },
                                        e2,
                                    ),
                                ),
                            }
                        } else {
                            None
                        },
                    },
                }
            } else {
                None
            },
        }
    }
}

/// The rest of a typed abstraction after its mark: `symbol ':' term`
/// parameters separated by commas, a dot, and the body.
pub open spec fn spec_parse_typed_tail(s: Seq<char>, pos: int) -> Option<(ExprModel, int)>
    decreases s.len() - pos, 0int,
{
    if !(0 <= pos <= s.len()) {
        None
    } else {
        match spec_parse_symbol(s, pos) {
            None => None,
            Some((sym, e1)) => match spec_parse_one_char(s, e1, ':') {
                None => None,
                Some(e2) => if pos < e2 <= s.len() {
                    match spec_parse_term(s, e2) {
                        None => None,
                        Some((ty, e3)) => {
                            let parameter = VarModel { symbol: sym, index: 0 };
                            match spec_parse_one_char(s, e3, ',') {
                                Some(e4) => if pos < e4 <= s.len() {
                                    match spec_parse_typed_tail(s, e4) {
                                        Some((rest, e5)) => Some(
                                            (
                                                ExprModel::TypedAbstraction {
                                                    parameter,
                                                    parameter_type: Box::new(ty),
                                                    body: Box::new(rest),
                                                },
                                                e5,
                                            ),
                                        ),
                                        None => None,
                                    }
                                } else {
                                    None
                                },
                                None => match spec_parse_one_char(s, e3, '.') {
                                    None => None,
                                    Some(d) => if pos < d <= s.len() {
                                        match spec_parse_term(s, d) {
                                            None => None,
                                            Some((body, e5)) => Some(
                                                (
                                                    ExprModel::TypedAbstraction {
                                                        parameter,
                                                        parameter_type: Box::new(ty),
                                                        body: Box::new(body),
                                                    },
                                                    e5,
                                                ),
                                            ),
                                        }
                                    } else {
                                        None
                                    },
                                },
                            }
                        },
                    }
                } else {
                    None
                },
            },
        }
    }
}

/// An untyped abstraction: mark, parameters, dot, body.
pub open spec fn spec_parse_abs_untyped(s: Seq<char>, pos: int) -> Option<(ExprModel, int)>
    decreases s.len() - pos, 1int,
{
    if !(0 <= pos <= s.len()) {
        None
    } else {
        match spec_parse_lambda_mark(s, pos) {
            None => None,
            Some(p1) => if pos < p1 <= s.len() {
                spec_parse_params_tail(s, p1)
            } else {
                None
            },
        }
    }
}

/// A typed abstraction: mark, typed parameters, dot, body.
pub open spec fn spec_parse_abs_typed(s: Seq<char>, pos: int) -> Option<(ExprModel, int)>
    decreases s.len() - pos, 1int,
{
    if !(0 <= pos <= s.len()) {
        None
    } else {
        match spec_parse_lambda_mark(s, pos) {
            None => None,
            Some(p1) => if pos < p1 <= s.len() {
                spec_parse_typed_tail(s, p1)
            } else {
                None
            },
        }
    }
}

/// An abstraction: the untyped form, or else the typed form.
pub open spec fn spec_parse_abstraction(s: Seq<char>, pos: int) -> Option<(ExprModel, int)>
    decreases s.len() - pos, 2int,
{
    if !(0 <= pos <= s.len()) {
        None
    } else {
        match spec_parse_abs_untyped(s, pos) {
            Some(x) => Some(x),
            None => spec_parse_abs_typed(s, pos),
        }
    }
}

/// An atom: a parenthesised term, or an abstraction, or a variable.
pub open spec fn spec_parse_atom(s: Seq<char>, pos: int) -> Option<(ExprModel, int)>
    decreases s.len() - pos, 3int,
{
    if !(0 <= pos <= s.len()) {
        None
    } else {
        let parens = match spec_parse_one_char(s, pos, '(') {
            None => None,
            Some(p1) => if pos < p1 <= s.len() {
                match spec_parse_term(s, p1) {
                    None => None,
                    Some((m, e)) => match spec_parse_one_char(s, e, ')') {
                        None => None,
                        Some(e2) => Some((m, e2)),
                    },
                }
            } else {
                None
            },
        };
        match parens {
            Some(x) => Some(x),
            None => match spec_parse_abstraction(s, pos) {
                Some(x) => Some(x),
                None => spec_parse_variable(s, pos),
            },
        }
    }
}

/// Further arguments of an application, folded to the left onto `acc`.
pub open spec fn spec_parse_app_more(s: Seq<char>, pos: int, acc: ExprModel) -> (ExprModel, int)
    decreases s.len() - pos, 4int,
{
    if !(0 <= pos <= s.len()) {
        (acc, pos)
    } else {
        match spec_parse_atom(s, pos) {
            None => (acc, pos),
            Some((m, e)) => if pos < e <= s.len() {
                spec_parse_app_more(
                    s,
                    e,
                    ExprModel::Application { applicator: Box::new(acc), argument: Box::new(m) },
                )
            } else {
                (acc, pos)
            },
        }
    }
}

/// An application: at least two atoms, folded to the left.
pub open spec fn spec_parse_application(s: Seq<char>, pos: int) -> Option<(ExprModel, int)>
    decreases s.len() - pos, 5int,
{
    if !(0 <= pos <= s.len()) {
        None
    } else {
        match spec_parse_atom(s, pos) {
            None => None,
            Some((a1, e1)) => if pos < e1 <= s.len() {
                match spec_parse_atom(s, e1) {
                    None => None,
                    Some((a2, e2)) => if e1 < e2 <= s.len() {
                        Some(
                            spec_parse_app_more(
                                s,
                                e2,
                                ExprModel::Application {
                                    applicator: Box::new(a1),
                                    argument: Box::new(a2),
                                },
                            ),
                        )
                    } else {
                        None
                    },
                }
            } else {
                None
            },
        }
    }
}

/// A term: an abstraction, or else an application, or else an atom.
pub open spec fn spec_parse_term(s: Seq<char>, pos: int) -> Option<(ExprModel, int)>
    decreases s.len() - pos, 6int,
{
    if !(0 <= pos <= s.len()) {
        None
    } else {
        match spec_parse_abstraction(s, pos) {
            Some(x) => Some(x),
            None => match spec_parse_application(s, pos) {
                Some(x) => Some(x),
                None => spec_parse_atom(s, pos),
            },
        }
    }
}

/// Matches one exact character at `pos`, past white space.
pub(crate) fn parse_one_char_at(s: &str, pos: usize, n: usize, c: char) -> (r: Option<usize>)
    requires
        n == s@.len(),
        pos <= n,
    ensures
        match r {
            Some(e) => spec_parse_one_char(s@, pos as int, c) == Some(e as int) && pos < e <= n,
            None => spec_parse_one_char(s@, pos as int, c) is None,
        },
{
    let k = skip_whitespace(s, pos, n);
    if k < n && s.get_char(k) == c {
        Some(k + 1)
    } else {
        None
    }
}

/// Matches one abstraction mark at `pos`, past white space.
pub(crate) fn parse_lambda_mark_at(s: &str, pos: usize, n: usize) -> (r: Option<usize>)
    requires
        n == s@.len(),
        pos <= n,
    ensures
        match r {
            Some(e) => spec_parse_lambda_mark(s@, pos as int) == Some(e as int) && pos < e <= n,
            None => spec_parse_lambda_mark(s@, pos as int) is None,
        },
{
    let k = skip_whitespace(s, pos, n);
    if k < n {
        let c = s.get_char(k);
        if c == 'λ' || c == '@' || c == '\\' {
            return Some(k + 1);
        }
    }
    None
}

/// Parses a variable at `pos`.
pub(crate) fn parse_variable_at(s: &str, pos: usize, n: usize) -> (r: Option<(Expression, usize)>)
    requires
        n == s@.len(),
        pos <= n,
    ensures
        match r {
            Some((e, p)) => spec_parse_variable(s@, pos as int) == Some((e@, p as int)) && pos < p
                <= n,
            None => spec_parse_variable(s@, pos as int) is None,
        },
{
    match parse_symbol_at(s, pos, n) {
        Some((sym, e)) => Some((Expression::Variable(Variable { symbol: sym, index: 0 }), e)),
        None => None,
    }
}

/// Parses the parameters, dot and body of an untyped abstraction.
pub(crate) fn parse_params_tail_at(s: &str, pos: usize, n: usize) -> (r: Option<
    (Expression, usize),
>)
    requires
        n == s@.len(),
        pos <= n,
    ensures
        match r {
            Some((e, p)) => {
                &&& spec_parse_params_tail(s@, pos as int) == Some((e@, p as int))
                &&& pos < p <= n
                &&& e is Abstraction
            },
            None => spec_parse_params_tail(s@, pos as int) is None,
        },
    decreases n - pos, 0int,
{
    match parse_symbol_at(s, pos, n) {
        None => None,
        Some((sym, e)) => {
            let parameter = Variable { symbol: sym, index: 0 };
            match parse_params_tail_at(s, e, n) {
                Some((rest, e2)) => Some(
                    (
                        Expression::Abstraction(Box::new(Abstraction { parameter, body: rest })),
                        e2,
                    ),
                ),
                None => match parse_one_char_at(s, e, n, '.') {
                    None => None,
                    Some(d) => match parse_term_at(s, d, n) {
                        None => None,
                        Some((body, e2)) => Some(
                            (
                                Expression::Abstraction(Box::new(Abstraction { parameter, body })),
                                e2,
                            ),
                        ),
                    },
                },
            }
        },
    }
}

/// Parses the typed parameters, dot and body of a typed abstraction.
pub(crate) fn parse_typed_tail_at(s: &str, pos: usize, n: usize) -> (r: Option<
    (Expression, usize),
>)
    requires
        n == s@.len(),
        pos <= n,
    ensures
        match r {
            Some((e, p)) => {
                &&& spec_parse_typed_tail(s@, pos as int) == Some((e@, p as int))
                &&& pos < p <= n
                &&& e is TypedAbstraction
            },
            None => spec_parse_typed_tail(s@, pos as int) is None,
        },
    decreases n - pos, 0int,
{
    match parse_symbol_at(s, pos, n) {
        None => None,
        Some((sym, e1)) => match parse_one_char_at(s, e1, n, ':') {
            None => None,
            Some(e2) => match parse_term_at(s, e2, n) {
                None => None,
                Some((ty, e3)) => {
                    let parameter = Variable { symbol: sym, index: 0 };
                    match parse_one_char_at(s, e3, n, ',') {
                        Some(e4) => match parse_typed_tail_at(s, e4, n) {
                            Some((rest, e5)) => Some(
                                (
                                    Expression::TypedAbstraction(
                                        Box::new(
                                            TypedAbstraction {
                                                parameter,
                                                parameter_type: ty,
                                                body: rest,
                                            },
                                        ),
                                    ),
                                    e5,
                                ),
                            ),
                            None => None,
                        },
                        None => match parse_one_char_at(s, e3, n, '.') {
                            None => None,
                            Some(d) => match parse_term_at(s, d, n) {
                                None => None,
                                Some((body, e5)) => Some(
                                    (
                                        Expression::TypedAbstraction(
                                            Box::new(
                                                TypedAbstraction {
                                                    parameter,
                                                    parameter_type: ty,
                                                    body,
                                                },
                                            ),
                                        ),
                                        e5,
                                    ),
                                ),
                            },
                        },
                    }
                },
            },
        },
    }
}

/// Parses an untyped abstraction at `pos`.
pub(crate) fn parse_abs_untyped_at(s: &str, pos: usize, n: usize) -> (r: Option<
    (Expression, usize),
>)
    requires
        n == s@.len(),
        pos <= n,
    ensures
        match r {
            Some((e, p)) => {
                &&& spec_parse_abs_untyped(s@, pos as int) == Some((e@, p as int))
                &&& pos < p <= n
                &&& e is Abstraction
            },
            None => spec_parse_abs_untyped(s@, pos as int) is None,
        },
    decreases n - pos, 1int,
{
    match parse_lambda_mark_at(s, pos, n) {
        None => None,
        Some(p1) => parse_params_tail_at(s, p1, n),
    }
}

/// Parses a typed abstraction at `pos`.
pub(crate) fn parse_abs_typed_at(s: &str, pos: usize, n: usize) -> (r: Option<(Expression, usize)>)
    requires
        n == s@.len(),
        pos <= n,
    ensures
        match r {
            Some((e, p)) => {
                &&& spec_parse_abs_typed(s@, pos as int) == Some((e@, p as int))
                &&& pos < p <= n
                &&& e is TypedAbstraction
            },
            None => spec_parse_abs_typed(s@, pos as int) is None,
        },
    decreases n - pos, 1int,
{
    match parse_lambda_mark_at(s, pos, n) {
        None => None,
        Some(p1) => parse_typed_tail_at(s, p1, n),
    }
}

/// Parses an abstraction at `pos`: untyped first, then typed.
pub(crate) fn parse_abstraction_at(s: &str, pos: usize, n: usize) -> (r: Option<
    (Expression, usize),
>)
    requires
        n == s@.len(),
        pos <= n,
    ensures
        match r {
            Some((e, p)) => {
                &&& spec_parse_abstraction(s@, pos as int) == Some((e@, p as int))
                &&& pos < p <= n
                &&& (e is Abstraction || e is TypedAbstraction)
            },
            None => spec_parse_abstraction(s@, pos as int) is None,
        },
    decreases n - pos, 2int,
{
    match parse_abs_untyped_at(s, pos, n) {
        Some(x) => Some(x),
        None => parse_abs_typed_at(s, pos, n),
    }
}

/// Parses an atom at `pos`.
pub(crate) fn parse_atom_at(s: &str, pos: usize, n: usize) -> (r: Option<(Expression, usize)>)
    requires
        n == s@.len(),
        pos <= n,
    ensures
        match r {
            Some((e, p)) => spec_parse_atom(s@, pos as int) == Some((e@, p as int)) && pos < p
                <= n,
            None => spec_parse_atom(s@, pos as int) is None,
        },
    decreases n - pos, 3int,
{
    let parens = match parse_one_char_at(s, pos, n, '(') {
        None => None,
        Some(p1) => match parse_term_at(s, p1, n) {
            None => None,
            Some((m, e)) => match parse_one_char_at(s, e, n, ')') {
                None => None,
                Some(e2) => Some((m, e2)),
            },
        },
    };
    match parens {
        Some(x) => Some(x),
        None => match parse_abstraction_at(s, pos, n) {
            Some(x) => Some(x),
            None => parse_variable_at(s, pos, n),
        },
    }
}

/// Parses an application at `pos`: two atoms, then any further atoms folded
/// to the left.
pub(crate) fn parse_application_at(s: &str, pos: usize, n: usize) -> (r: Option<
    (Expression, usize),
>)
    requires
        n == s@.len(),
        pos <= n,
    ensures
        match r {
            Some((e, p)) => {
                &&& spec_parse_application(s@, pos as int) == Some((e@, p as int))
                &&& pos < p <= n
                &&& e is Application
            },
            None => spec_parse_application(s@, pos as int) is None,
        },
    decreases n - pos, 5int,
{
    match parse_atom_at(s, pos, n) {
        None => None,
        Some((a1, e1)) => match parse_atom_at(s, e1, n) {
            None => None,
            Some((a2, e2)) => {
                let ghost first = ExprModel::Application {
                    applicator: Box::new(a1@),
                    argument: Box::new(a2@),
                };
                let mut acc = Expression::Application(
                    Box::new(Application { applicator: a1, argument: a2 }),
                );
                let mut p: usize = e2;
                loop
                    invariant
                        pos < p <= n,
                        n == s@.len(),
                        acc is Application,
                        spec_parse_app_more(s@, p as int, acc@) == spec_parse_app_more(
                            s@,
                            e2 as int,
                            first,
                        ),
                    ensures
                        p <= n,
                        acc is Application,
                        spec_parse_app_more(s@, e2 as int, first) == (acc@, p as int),
                    decreases n - p, 4int,
                {
                    match parse_atom_at(s, p, n) {
                        Some((m, e)) => {
                            acc = Expression::Application(
                                Box::new(Application { applicator: acc, argument: m }),
                            );
                            p = e;
                        },
                        None => {
                            break ;
                        },
                    }
                }
                Some((acc, p))
            },
        },
    }
}

/// Parses a term at `pos`.
pub(crate) fn parse_term_at(s: &str, pos: usize, n: usize) -> (r: Option<(Expression, usize)>)
    requires
        n == s@.len(),
        pos <= n,
    ensures
        match r {
            Some((e, p)) => spec_parse_term(s@, pos as int) == Some((e@, p as int)) && pos < p
                <= n,
            None => spec_parse_term(s@, pos as int) is None,
        },
    decreases n - pos, 6int,
{
    match parse_abstraction_at(s, pos, n) {
        Some(x) => Some(x),
        None => match parse_application_at(s, pos, n) {
            Some(x) => Some(x),
            None => parse_atom_at(s, pos, n),
        },
    }
}

impl Expression {
    /// Parses a lambda term at the front of the input; the rest of the input
    /// begins right after it. Fails exactly when no production of the grammar
    /// matches.
    pub fn parse(input: PositionedBuffer) -> (r: ParserResult<Expression>)
        ensures
            match r {
                Ok((e, rest)) => {
                    &&& spec_parse_term(input.buffer@, 0) matches Some((m, p))
                        && m == e@
                        && rest.buffer@ == input.buffer@.subrange(p, input.buffer@.len() as int)
                        && rest.position == clamp_add_usize(input.position, p as usize)
                },
                Err(err) => spec_parse_term(input.buffer@, 0) is None,
            },
    {
        let n = input.buffer.as_str().unicode_len();
        match parse_term_at(input.buffer.as_str(), 0, n) {
            Some((e, p)) => {
                let rest = input.seek(p);
                Ok((e, rest))
            },
            None => Err(input.error("Invalid lambda expression.")),
        }
    }
}

} // verus!
