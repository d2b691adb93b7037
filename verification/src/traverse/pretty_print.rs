//! The pretty printer: formats a term in one of three surface syntaxes.
//!
//! - Named: original symbols, `λx. body`.
//! - Indexed: every variable as its index, `λ body`.
//! - Nameless locals: indices for bound occurrences, symbols for free ones.
//!
//! Application is left-associative, so only an argument that is itself an
//! application is parenthesised. An abstraction directly in body position or
//! at the root loses its outer parentheses.

use vstd::prelude::*;
use vstd::string::*;

use crate::arith::{clamp_add, sat_add_u64};
use crate::expression::variable::VarModel;
use crate::expression::{ExprModel, Expression};

verus! {

/// An output mode of the printer.
#[derive(Debug, Clone, Copy, PartialEq, Eq)]
pub enum PrinterMode {
    /// Original symbols everywhere.
    Named,
    /// De Bruijn indices everywhere.
    Indexed,
    /// Indices for bound occurrences, symbols for free ones.
    NamelessLocals,
}

/// The decimal digit `d`, as a character.
pub open spec fn spec_digit(d: u64) -> char {
    if d == 0 {
        '0'
    } else if d == 1 {
        '1'
    } else if d == 2 {
        '2'
    } else if d == 3 {
        '3'
    } else if d == 4 {
        '4'
    } else if d == 5 {
        '5'
    } else if d == 6 {
        '6'
    } else if d == 7 {
        '7'
    } else if d == 8 {
        '8'
    } else {
        '9'
    }
}

/// The decimal notation of `n`, most significant digit first.
pub open spec fn dec_str(n: u64) -> Seq<char>
    decreases n,
{
    if n < 10 {
        seq![spec_digit(n)]
    } else {
        dec_str(n / 10).push(spec_digit(n % 10))
    }
}

/// How a variable is printed at binder depth `depth`. In nameless-locals
/// mode a bound occurrence — a resolved index within the local binder depth —
/// prints as its index; a free or unresolved occurrence prints as its symbol.
pub open spec fn var_token(v: VarModel, mode: PrinterMode, depth: u64) -> Seq<char> {
    match mode {
        PrinterMode::Named => v.symbol,
        PrinterMode::Indexed => dec_str(v.index),
        PrinterMode::NamelessLocals => if 1 <= v.index <= depth {
            dec_str(v.index)
        } else {
            v.symbol
        },
    }
}

/// The printed form of `m` with an abstraction kept inside its parentheses:
/// what the printer produces for a term in applicator or argument position.
pub open spec fn spec_print(m: ExprModel, mode: PrinterMode, depth: u64) -> Seq<char>
    decreases m, 1int,
{
    match m {
        ExprModel::Variable(v) => var_token(v, mode, depth),
        ExprModel::Application { applicator, argument } => {
            let left = spec_print(*applicator, mode, depth);
            let right = spec_print(*argument, mode, depth);
            if *argument matches ExprModel::Application { .. } {
                left + seq![' ', '('] + right + seq![')']
            } else {
                left + seq![' '] + right
            }
        },
        _ => seq!['('] + spec_print_naked(m, mode, depth) + seq![')'],
    }
}

/// The printed form of an abstraction without its outer parentheses: what the
/// printer produces for an abstraction at the root or directly in body
/// position. On a term that is not an abstraction it is not used and yields
/// the empty sequence.
pub open spec fn spec_print_naked(m: ExprModel, mode: PrinterMode, depth: u64) -> Seq<char>
    decreases m, 0int,
{
    match m {
        ExprModel::Abstraction { parameter, body } => {
            let header = match mode {
                PrinterMode::Named => seq!['λ'] + parameter.symbol + seq!['.', ' '],
                _ => seq!['λ', ' '],
            };
            let inner = if *body matches ExprModel::Abstraction { .. } || *body
                matches ExprModel::TypedAbstraction { .. } {
                spec_print_naked(*body, mode, clamp_add(depth, 1))
            } else {
                spec_print(*body, mode, clamp_add(depth, 1))
            };
            header + inner
        },
        ExprModel::TypedAbstraction { parameter, parameter_type, body } => {
            let header = match mode {
                PrinterMode::Named => seq!['λ'] + parameter.symbol + seq![':'] + spec_print(
                    *parameter_type,
                    mode,
                    depth,
                ) + seq!['.', ' '],
                _ => seq!['λ', ' '],
            };
            let inner = if *body matches ExprModel::Abstraction { .. } || *body
                matches ExprModel::TypedAbstraction { .. } {
                spec_print_naked(*body, mode, clamp_add(depth, 1))
            } else {
                spec_print(*body, mode, clamp_add(depth, 1))
            };
            header + inner
        },
        _ => Seq::empty(),
    }
}

/// The printed form of a whole term: an abstraction at the root loses its
/// outer parentheses.
pub open spec fn spec_format(m: ExprModel, mode: PrinterMode) -> Seq<char> {
    if m matches ExprModel::Abstraction { .. } || m matches ExprModel::TypedAbstraction { .. } {
        spec_print_naked(m, mode, 0)
    } else {
        spec_print(m, mode, 0)
    }
}

/// Same tree shape and the same indices everywhere, with the symbols free to
/// differ.
pub open spec fn same_shape_and_indices(m1: ExprModel, m2: ExprModel) -> bool
    decreases m1,
{
    match (m1, m2) {
        (ExprModel::Variable(v1), ExprModel::Variable(v2)) => v1.index == v2.index,
        (
            ExprModel::Abstraction { parameter: p1, body: b1 },
            ExprModel::Abstraction { parameter: p2, body: b2 },
        ) => p1.index == p2.index && same_shape_and_indices(*b1, *b2),
        (
            ExprModel::TypedAbstraction { parameter: p1, parameter_type: t1, body: b1 },
            ExprModel::TypedAbstraction { parameter: p2, parameter_type: t2, body: b2 },
        ) => p1.index == p2.index && same_shape_and_indices(*t1, *t2) && same_shape_and_indices(
            *b1,
            *b2,
        ),
        (
            ExprModel::Application { applicator: f1, argument: a1 },
            ExprModel::Application { applicator: f2, argument: a2 },
        ) => same_shape_and_indices(*f1, *f2) && same_shape_and_indices(*a1, *a2),
        _ => false,
    }
}

/// Print-mode commutativity: the indexed print depends only on the tree
/// shape and the indices, never on the symbols.
pub proof fn lemma_indexed_print_ignores_symbols(m1: ExprModel, m2: ExprModel, depth: u64)
    requires
        same_shape_and_indices(m1, m2),
    ensures
        spec_print(m1, PrinterMode::Indexed, depth) == spec_print(m2, PrinterMode::Indexed, depth),
        spec_print_naked(m1, PrinterMode::Indexed, depth) == spec_print_naked(
            m2,
            PrinterMode::Indexed,
            depth,
        ),
    decreases m1,
{
    reveal_with_fuel(spec_print, 2);
    reveal_with_fuel(spec_print_naked, 2);
    reveal_with_fuel(same_shape_and_indices, 2);
    match (m1, m2) {
        (ExprModel::Variable(v1), ExprModel::Variable(v2)) => {
            assert(spec_print(m1, PrinterMode::Indexed, depth) == var_token(
                v1,
                PrinterMode::Indexed,
                depth,
            ));
            assert(spec_print(m2, PrinterMode::Indexed, depth) == var_token(
                v2,
                PrinterMode::Indexed,
                depth,
            ));
        },
        (
            ExprModel::Abstraction { parameter: p1, body: b1 },
            ExprModel::Abstraction { parameter: p2, body: b2 },
        ) => {
            lemma_indexed_print_ignores_symbols(*b1, *b2, clamp_add(depth, 1));
            let naked1 = spec_print_naked(m1, PrinterMode::Indexed, depth);
            let naked2 = spec_print_naked(m2, PrinterMode::Indexed, depth);
            assert(naked1 == naked2);
            assert(spec_print(m1, PrinterMode::Indexed, depth) == seq!['('] + naked1 + seq![')']);
            assert(spec_print(m2, PrinterMode::Indexed, depth) == seq!['('] + naked2 + seq![')']);
        },
        (
            ExprModel::TypedAbstraction { parameter: p1, parameter_type: t1, body: b1 },
            ExprModel::TypedAbstraction { parameter: p2, parameter_type: t2, body: b2 },
        ) => {
            lemma_indexed_print_ignores_symbols(*b1, *b2, clamp_add(depth, 1));
            let naked1 = spec_print_naked(m1, PrinterMode::Indexed, depth);
            let naked2 = spec_print_naked(m2, PrinterMode::Indexed, depth);
            assert(naked1 == naked2);
            assert(spec_print(m1, PrinterMode::Indexed, depth) == seq!['('] + naked1 + seq![')']);
            assert(spec_print(m2, PrinterMode::Indexed, depth) == seq!['('] + naked2 + seq![')']);
        },
        (
            ExprModel::Application { applicator: f1, argument: a1 },
            ExprModel::Application { applicator: f2, argument: a2 },
        ) => {
            lemma_indexed_print_ignores_symbols(*f1, *f2, depth);
            lemma_indexed_print_ignores_symbols(*a1, *a2, depth);
            let left = spec_print(*f1, PrinterMode::Indexed, depth);
            let right = spec_print(*a1, PrinterMode::Indexed, depth);
            assert((*a1 matches ExprModel::Application { .. }) == (*a2
                matches ExprModel::Application { .. }));
            if *a1 matches ExprModel::Application { .. } {
                assert(spec_print(m1, PrinterMode::Indexed, depth) == left + seq![' ', '(']
                    + right + seq![')']);
                assert(spec_print(m2, PrinterMode::Indexed, depth) == left + seq![' ', '(']
                    + right + seq![')']);
            } else {
                assert(spec_print(m1, PrinterMode::Indexed, depth) == left + seq![' '] + right);
                assert(spec_print(m2, PrinterMode::Indexed, depth) == left + seq![' '] + right);
            }
        },
        _ => {},
    }
}

/// The whole-term form of print-mode commutativity.
pub proof fn lemma_indexed_format_ignores_symbols(m1: ExprModel, m2: ExprModel)
    requires
        same_shape_and_indices(m1, m2),
    ensures
        spec_format(m1, PrinterMode::Indexed) == spec_format(m2, PrinterMode::Indexed),
{
    lemma_indexed_print_ignores_symbols(m1, m2, 0);
}

/// Associativity printing, left: in `((f g) x)` the applicator keeps no
/// parentheses of its own, so `a b c` comes out flat.
pub proof fn lemma_print_left_nested_application(
    f: ExprModel,
    g: ExprModel,
    x: ExprModel,
    mode: PrinterMode,
    depth: u64,
)
    ensures
        spec_print(
            ExprModel::Application {
                applicator: Box::new(
                    ExprModel::Application { applicator: Box::new(f), argument: Box::new(g) },
                ),
                argument: Box::new(x),
            },
            mode,
            depth,
        ) == spec_print(
            ExprModel::Application { applicator: Box::new(f), argument: Box::new(g) },
            mode,
            depth,
        ) + (if x matches ExprModel::Application { .. } {
            seq![' ', '('] + spec_print(x, mode, depth) + seq![')']
        } else {
            seq![' '] + spec_print(x, mode, depth)
        }),
{
}

/// Associativity printing, right: in `(f (g x))` the argument is itself an
/// application and is parenthesised, so `a (b c)` keeps its parentheses.
pub proof fn lemma_print_right_nested_application(
    f: ExprModel,
    g: ExprModel,
    x: ExprModel,
    mode: PrinterMode,
    depth: u64,
)
    ensures
        spec_print(
            ExprModel::Application {
                applicator: Box::new(f),
                argument: Box::new(
                    ExprModel::Application { applicator: Box::new(g), argument: Box::new(x) },
                ),
            },
            mode,
            depth,
        ) == spec_print(f, mode, depth) + seq![' ', '('] + spec_print(
            ExprModel::Application { applicator: Box::new(g), argument: Box::new(x) },
            mode,
            depth,
        ) + seq![')'],
{
}

/// Associativity printing on variables: `((a b) c)` prints as `a b c`, and
/// `(a (b c))` prints as `a (b c)`.
pub proof fn lemma_print_application_associativity(
    a: VarModel,
    b: VarModel,
    c: VarModel,
    mode: PrinterMode,
    depth: u64,
)
    ensures
        spec_print(
            ExprModel::Application {
                applicator: Box::new(
                    ExprModel::Application {
                        applicator: Box::new(ExprModel::Variable(a)),
                        argument: Box::new(ExprModel::Variable(b)),
                    },
                ),
                argument: Box::new(ExprModel::Variable(c)),
            },
            mode,
            depth,
        ) == var_token(a, mode, depth) + seq![' '] + var_token(b, mode, depth) + seq![' ']
            + var_token(c, mode, depth),
        spec_print(
            ExprModel::Application {
                applicator: Box::new(ExprModel::Variable(a)),
                argument: Box::new(
                    ExprModel::Application {
                        applicator: Box::new(ExprModel::Variable(b)),
                        argument: Box::new(ExprModel::Variable(c)),
                    },
                ),
            },
            mode,
            depth,
        ) == var_token(a, mode, depth) + seq![' ', '('] + var_token(b, mode, depth) + seq![' ']
            + var_token(c, mode, depth) + seq![')'],
{
    reveal_with_fuel(spec_print, 3);
    assert(var_token(a, mode, depth) + seq![' '] + var_token(b, mode, depth) + seq![' ']
        + var_token(c, mode, depth) =~= (var_token(a, mode, depth) + seq![' '] + var_token(
        b,
        mode,
        depth,
    )) + seq![' '] + var_token(c, mode, depth));
    assert(var_token(a, mode, depth) + seq![' ', '('] + var_token(b, mode, depth) + seq![' ']
        + var_token(c, mode, depth) + seq![')'] =~= var_token(a, mode, depth) + seq![' ', '('] + (
    var_token(b, mode, depth) + seq![' '] + var_token(c, mode, depth)) + seq![')']);
}

/// One decimal digit as text.
fn digit_str(d: u64) -> (r: String)
    requires
        d < 10,
    ensures
        r@ == seq![spec_digit(d)],
{
    proof {
        reveal_strlit("0");
        reveal_strlit("1");
        reveal_strlit("2");
        reveal_strlit("3");
        reveal_strlit("4");
        reveal_strlit("5");
        reveal_strlit("6");
        reveal_strlit("7");
        reveal_strlit("8");
        reveal_strlit("9");
    }
    let t: &str = if d == 0 {
        "0"
    } else if d == 1 {
        "1"
    } else if d == 2 {
        "2"
    } else if d == 3 {
        "3"
    } else if d == 4 {
        "4"
    } else if d == 5 {
        "5"
    } else if d == 6 {
        "6"
    } else if d == 7 {
        "7"
    } else if d == 8 {
        "8"
    } else {
        "9"
    };
    let r = t.to_owned();
    proof {
        assert(r@ =~= seq![spec_digit(d)]);
    }
    r
}

/// The decimal notation of `n` as text.
fn decimal_string(n: u64) -> (r: String)
    ensures
        r@ == dec_str(n),
    decreases n,
{
    if n < 10 {
        digit_str(n)
    } else {
        let mut head = decimal_string(n / 10);
        let tail = digit_str(n % 10);
        head.append(tail.as_str());
        proof {
            assert(head@ =~= dec_str(n));
        }
        head
    }
}

/// Formats a term in one of the three output modes.
pub struct ExpressionPrettyPrinter;

impl ExpressionPrettyPrinter {
    /// The printed form of `expression` with original symbols.
    pub fn format_named(expression: &Expression) -> (r: String)
        ensures
            r@ == spec_format(expression@, PrinterMode::Named),
    {
        Self::format_inner(expression, PrinterMode::Named)
    }

    /// The printed form of `expression` with every variable as its index.
    pub fn format_indexed(expression: &Expression) -> (r: String)
        ensures
            r@ == spec_format(expression@, PrinterMode::Indexed),
    {
        Self::format_inner(expression, PrinterMode::Indexed)
    }

    /// The printed form of `expression` with indices for bound occurrences
    /// and symbols for free ones.
    pub fn format_nameless_locals(expression: &Expression) -> (r: String)
        ensures
            r@ == spec_format(expression@, PrinterMode::NamelessLocals),
    {
        Self::format_inner(expression, PrinterMode::NamelessLocals)
    }

    /// The default print: the named form.
    pub fn format(expression: &Expression) -> (r: String)
        ensures
            r@ == spec_format(expression@, PrinterMode::Named),
    {
        Self::format_named(expression)
    }

    fn format_inner(expression: &Expression, mode: PrinterMode) -> (r: String)
        ensures
            r@ == spec_format(expression@, mode),
    {
        match expression {
            Expression::Abstraction(_) => Self::print_naked(expression, mode, 0),
            Expression::TypedAbstraction(_) => Self::print_naked(expression, mode, 0),
            _ => Self::print_wrapped(expression, mode, 0),
        }
    }

    /// The parenthesised form: what stands in applicator or argument position.
    fn print_wrapped(term: &Expression, mode: PrinterMode, depth: u64) -> (r: String)
        ensures
            r@ == spec_print(term@, mode, depth),
        decreases *term, 1int,
    {
        match term {
            Expression::Variable(v) => Self::print_variable(v, mode, depth),
            Expression::Application(a) => {
                let left = Self::print_wrapped(&a.applicator, mode, depth);
                let right = Self::print_wrapped(&a.argument, mode, depth);
                let mut out = left;
                if matches!(&a.argument, Expression::Application(_)) {
                    out.append(" (");
                    out.append(right.as_str());
                    out.append(")");
                    proof {
                        reveal_strlit(" (");
                        reveal_strlit(")");
                        assert(out@ =~= spec_print(term@, mode, depth));
                    }
                } else {
                    out.append(" ");
                    out.append(right.as_str());
                    proof {
                        reveal_strlit(" ");
                        assert(out@ =~= spec_print(term@, mode, depth));
                    }
                }
                out
            },
            _ => {
                let naked = Self::print_naked(term, mode, depth);
                let mut out = "(".to_owned();
                out.append(naked.as_str());
                out.append(")");
                proof {
                    reveal_strlit("(");
                    reveal_strlit(")");
                    assert(out@ =~= spec_print(term@, mode, depth));
                }
                out
            },
        }
    }

    /// An abstraction without its outer parentheses.
    fn print_naked(term: &Expression, mode: PrinterMode, depth: u64) -> (r: String)
        ensures
            r@ == spec_print_naked(term@, mode, depth),
        decreases *term, 0int,
    {
        match term {
            Expression::Abstraction(a) => {
                let mut out = match mode {
                    PrinterMode::Named => {
                        let mut h = "λ".to_owned();
                        h.append(a.parameter.symbol.as_str());
                        h.append(". ");
                        h
                    },
                    _ => "λ ".to_owned(),
                };
                let inner = if matches!(
                    &a.body,
                    Expression::Abstraction(_) | Expression::TypedAbstraction(_),
                ) {
                    Self::print_naked(&a.body, mode, sat_add_u64(depth, 1))
                } else {
                    Self::print_wrapped(&a.body, mode, sat_add_u64(depth, 1))
                };
                out.append(inner.as_str());
                proof {
                    reveal_strlit("λ");
                    reveal_strlit(". ");
                    reveal_strlit("λ ");
                    assert(out@ =~= spec_print_naked(term@, mode, depth));
                }
                out
            },
            Expression::TypedAbstraction(t) => {
                let mut out = match mode {
                    PrinterMode::Named => {
                        let mut h = "λ".to_owned();
                        h.append(t.parameter.symbol.as_str());
                        h.append(":");
                        let ty = Self::print_wrapped(&t.parameter_type, mode, depth);
                        h.append(ty.as_str());
                        h.append(". ");
                        h
                    },
                    _ => "λ ".to_owned(),
                };
                let inner = if matches!(
                    &t.body,
                    Expression::Abstraction(_) | Expression::TypedAbstraction(_),
                ) {
                    Self::print_naked(&t.body, mode, sat_add_u64(depth, 1))
                } else {
                    Self::print_wrapped(&t.body, mode, sat_add_u64(depth, 1))
                };
                out.append(inner.as_str());
                proof {
                    reveal_strlit("λ");
                    reveal_strlit(":");
                    reveal_strlit(". ");
                    reveal_strlit("λ ");
                    assert(out@ =~= spec_print_naked(term@, mode, depth));
                }
                out
            },
            _ => String::new(),
        }
    }

    fn print_variable(v: &crate::expression::variable::Variable, mode: PrinterMode, depth: u64) -> (r:
        String)
        ensures
            r@ == var_token(v@, mode, depth),
    {
        match mode {
            PrinterMode::Named => v.symbol.clone(),
            PrinterMode::Indexed => decimal_string(v.index),
            PrinterMode::NamelessLocals => {
                if 1 <= v.index && v.index <= depth {
                    decimal_string(v.index)
                } else {
                    v.symbol.clone()
                }
            },
        }
    }
}

} // verus!
