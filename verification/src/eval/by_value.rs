//! The evaluator: one engine with two modes. Call-by-value contracts the
//! leftmost-outermost redex whose applicator cannot be reduced further and
//! never looks under a binder; normalization reduces everywhere. A typed
//! abstraction reduces exactly like an untyped one; its type slot is ignored.

use vstd::prelude::*;

use crate::expression::variable::Variable;
use crate::expression::{spec_is_value, ExprModel, Expression};
use crate::eval::{BetaReduction, TracingBetaReduction};
use crate::expression::variable::VarModel;
use crate::traverse::de_bruijn::shift::{
    binder_height, lemma_shift_cancel, lemma_shift_compose, lemma_vars_within_mono, spec_shift,
    vars_within, DeBruijnShift,
};
use crate::traverse::de_bruijn::substitution::{spec_substitute, DeBruijnSubstitution};
use crate::traverse::pretty_print::{spec_format, ExpressionPrettyPrinter, PrinterMode};

verus! {

/// The contraction of the redex `(λ.body) argument`: the argument is shifted
/// up, put in for index 1, and the indices over the vanished binder are
/// shifted back down.
pub open spec fn spec_contract(body: ExprModel, argument: ExprModel) -> ExprModel {
    spec_shift(spec_substitute(body, 1, spec_shift(argument, 1, 1)), -1, 1)
}

/// The standard one-pass beta rule at target `k`: the occurrence bound by
/// the contracted binder takes the argument, shifted up by the binders
/// crossed on the way; every index pointing past the vanished binder steps
/// down by one; everything else stays.
pub open spec fn direct_beta(m: ExprModel, argument: ExprModel, k: int) -> ExprModel
    decreases m,
{
    match m {
        ExprModel::Variable(v) => if v.index == k {
            spec_shift(argument, k - 1, 1)
        } else if v.index > k {
            ExprModel::Variable(VarModel { symbol: v.symbol, index: (v.index - 1) as u64 })
        } else {
            m
        },
        ExprModel::Abstraction { parameter, body } => ExprModel::Abstraction {
            parameter,
            body: Box::new(direct_beta(*body, argument, k + 1)),
        },
        ExprModel::TypedAbstraction { parameter, parameter_type, body } =>
            ExprModel::TypedAbstraction {
            parameter,
            parameter_type,
            body: Box::new(direct_beta(*body, argument, k + 1)),
        },
        ExprModel::Application { applicator, argument: arg } => ExprModel::Application {
            applicator: Box::new(direct_beta(*applicator, argument, k)),
            argument: Box::new(direct_beta(*arg, argument, k)),
        },
    }
}

/// The shift–substitute–shift composition the reducer performs, generalised
/// to target `k` under `k - 1` already-crossed binders, equals the standard
/// beta rule at `k`.
proof fn lemma_contract_general(b: ExprModel, a: ExprModel, k: u64)
    requires
        1 <= k,
        vars_within(a, u64::MAX - k - binder_height(b)),
        k + binder_height(b) + binder_height(a) + 1 <= u64::MAX,
    ensures
        spec_shift(spec_substitute(b, k, spec_shift(a, k as int, 1)), -1, k) == direct_beta(
            b,
            a,
            k as int,
        ),
    decreases b,
{
    match b {
        ExprModel::Variable(v) => {
            if v.index == k {
                lemma_vars_within_mono(a, u64::MAX - k - binder_height(b), u64::MAX - k);
                lemma_shift_cancel(a, k, 1);
            }
        },
        ExprModel::Abstraction { parameter, body } => {
            lemma_shift_compose(a, k as int, 1, 1);
            lemma_contract_general(*body, a, (k + 1) as u64);
        },
        ExprModel::TypedAbstraction { parameter, parameter_type, body } => {
            lemma_shift_compose(a, k as int, 1, 1);
            lemma_contract_general(*body, a, (k + 1) as u64);
        },
        ExprModel::Application { applicator, argument } => {
            lemma_vars_within_mono(
                a,
                u64::MAX - k - binder_height(b),
                u64::MAX - k - binder_height(*applicator),
            );
            lemma_contract_general(*applicator, a, k);
            lemma_vars_within_mono(
                a,
                u64::MAX - k - binder_height(b),
                u64::MAX - k - binder_height(*argument),
            );
            lemma_contract_general(*argument, a, k);
        },
    }
}

/// Shift–substitute–shift identity at the redex: on a well-formed redex
/// `(λ.body) argument` — one whose indices and binder depths stay clear of
/// the machine clamps — the contraction the reducer performs is exactly the
/// standard capture-avoiding beta rule.
pub proof fn lemma_contraction_is_beta_rule(body: ExprModel, argument: ExprModel)
    requires
        vars_within(argument, u64::MAX - 1 - binder_height(body)),
        binder_height(body) + binder_height(argument) + 2 <= u64::MAX,
    ensures
        spec_contract(body, argument) == direct_beta(body, argument, 1),
{
    lemma_contract_general(body, argument, 1);
}

/// One step of the evaluator. With `normalize` false this is call-by-value:
/// no reduction under binders, an application first reduces a non-value
/// applicator, then a non-value argument, then contracts if the applicator is
/// an abstraction, and is stuck otherwise. With `normalize` true every
/// position is reduced.
pub open spec fn spec_step(m: ExprModel, normalize: bool) -> Option<ExprModel>
    decreases m,
{
    match m {
        ExprModel::Variable(_) => None,
        ExprModel::Abstraction { parameter, body } => if normalize {
            match spec_step(*body, normalize) {
                Some(b2) => Some(ExprModel::Abstraction { parameter, body: Box::new(b2) }),
                None => None,
            }
        } else {
            None
        },
        ExprModel::TypedAbstraction { parameter, parameter_type, body } => if normalize {
            match spec_step(*body, normalize) {
                Some(b2) => Some(
                    ExprModel::TypedAbstraction { parameter, parameter_type, body: Box::new(b2) },
                ),
                None => None,
            }
        } else {
            None
        },
        ExprModel::Application { applicator, argument } => {
            let fstep = if normalize || !spec_is_value(*applicator) {
                spec_step(*applicator, normalize)
            } else {
                None
            };
            match fstep {
                Some(f2) => Some(
                    ExprModel::Application { applicator: Box::new(f2), argument },
                ),
                None => {
                    let astep = if normalize || !spec_is_value(*argument) {
                        spec_step(*argument, normalize)
                    } else {
                        None
                    };
                    match astep {
                        Some(a2) => Some(
                            ExprModel::Application { applicator, argument: Box::new(a2) },
                        ),
                        None => match *applicator {
                            ExprModel::Abstraction { body, .. } => Some(
                                spec_contract(*body, *argument),
                            ),
                            ExprModel::TypedAbstraction { body, .. } => Some(
                                spec_contract(*body, *argument),
                            ),
                            _ => None,
                        },
                    }
                },
            }
        },
    }
}

/// A term normalization is finished with is finished for call-by-value too:
/// where no redex remains anywhere, the weaker strategy finds none either.
/// So once normalization has reached a normal form, call-by-value leaves it
/// alone.
pub proof fn lemma_normal_form_is_by_value_normal(m: ExprModel)
    requires
        spec_step(m, true) is None,
    ensures
        spec_step(m, false) is None,
    decreases m,
{
    match m {
        ExprModel::Variable(_) => {},
        ExprModel::Abstraction { .. } => {},
        ExprModel::TypedAbstraction { .. } => {},
        ExprModel::Application { applicator, argument } => {
            lemma_normal_form_is_by_value_normal(*applicator);
            lemma_normal_form_is_by_value_normal(*argument);
        },
    }
}

/// `k` steps of the evaluator in the given mode; a term no step applies to
/// stays put.
pub open spec fn cbv_steps(m: ExprModel, normalize: bool, k: nat) -> ExprModel
    decreases k,
{
    if k == 0 {
        m
    } else {
        match spec_step(m, normalize) {
            Some(m2) => cbv_steps(m2, normalize, (k - 1) as nat),
            None => m,
        }
    }
}

/// Taking one more step means stepping the result of the first `k` steps.
pub proof fn lemma_cbv_steps_snoc(m: ExprModel, normalize: bool, k: nat)
    ensures
        cbv_steps(m, normalize, k + 1) == (match spec_step(cbv_steps(m, normalize, k), normalize) {
            Some(x) => x,
            None => cbv_steps(m, normalize, k),
        }),
    decreases k,
{
    reveal_with_fuel(cbv_steps, 3);
    if k > 0 {
        match spec_step(m, normalize) {
            Some(m2) => lemma_cbv_steps_snoc(m2, normalize, (k - 1) as nat),
            None => {},
        }
    }
}

/// The evaluator: call-by-value, or full normalization when `normalize` is
/// set.
pub struct CallByValueEvaluator {
    pub normalize: bool,
}

impl CallByValueEvaluator {
    /// An evaluator in the chosen mode.
    pub fn new(normalize: bool) -> (e: Self)
        ensures
            e.normalize == normalize,
    {
        CallByValueEvaluator { normalize }
    }

    /// One call-by-value step, in place; `true` iff a redex was contracted.
    pub fn evaluate(expression: &mut Expression) -> (reduced: bool)
        ensures
            reduced == (spec_step(old(expression)@, false) is Some),
            final(expression)@ == (match spec_step(old(expression)@, false) {
                Some(m2) => m2,
                None => old(expression)@,
            }),
    {
        let e = CallByValueEvaluator::new(false);
        e.traverse(expression)
    }

    /// One normal-order step, in place; `true` iff a redex was contracted.
    pub fn normalize(expression: &mut Expression) -> (reduced: bool)
        ensures
            reduced == (spec_step(old(expression)@, true) is Some),
            final(expression)@ == (match spec_step(old(expression)@, true) {
                Some(m2) => m2,
                None => old(expression)@,
            }),
    {
        let e = CallByValueEvaluator::new(true);
        e.traverse(expression)
    }

    /// One step of this evaluator's mode, in place.
    pub fn traverse(&self, term: &mut Expression) -> (reduced: bool)
        ensures
            reduced == (spec_step(old(term)@, self.normalize) is Some),
            final(term)@ == (match spec_step(old(term)@, self.normalize) {
                Some(m2) => m2,
                None => old(term)@,
            }),
        decreases *old(term),
    {
        let proceed = match term {
            Expression::Variable(_) => {
                return false;
            },
            Expression::Abstraction(a) => {
                if self.normalize {
                    return self.traverse(&mut a.body);
                } else {
                    return false;
                }
            },
            Expression::TypedAbstraction(t) => {
                if self.normalize {
                    return self.traverse(&mut t.body);
                } else {
                    return false;
                }
            },
            Expression::Application(a) => {
                let applicator_is_value = a.applicator.is_value();
                if self.normalize || !applicator_is_value {
                    if self.traverse(&mut a.applicator) {
                        return true;
                    }
                }
                let argument_is_value = a.argument.is_value();
                if self.normalize || !argument_is_value {
                    if self.traverse(&mut a.argument) {
                        return true;
                    }
                }
                matches!(
                    &a.applicator,
                    Expression::Abstraction(_) | Expression::TypedAbstraction(_),
                )
            },
        };
        if !proceed {
            return false;
        }
        // the node is an application whose applicator is an abstraction and
        // whose sides are done: take it apart and contract the redex
        let mut owned = Expression::Variable(Variable { symbol: String::new(), index: 0 });
        core::mem::swap(term, &mut owned);
        match owned {
            Expression::Application(app) => {
                let app = *app;
                match app.applicator {
                    Expression::Abstraction(abs) => {
                        let abs = *abs;
                        Self::contract(abs.body, app.argument, term);
                        true
                    },
                    Expression::TypedAbstraction(tabs) => {
                        let tabs = *tabs;
                        Self::contract(tabs.body, app.argument, term);
                        true
                    },
                    _ => unreached(),
                }
            },
            _ => unreached(),
        }
    }

    /// Contracts `(λ.body) argument` into `term`.
    fn contract(body: Expression, argument: Expression, term: &mut Expression)
        ensures
            final(term)@ == spec_contract(body@, argument@),
    {
        let mut argument = argument;
        DeBruijnShift::shift(1, &mut argument);
        let mut body = body;
        DeBruijnSubstitution::substitute(1, argument, &mut body);
        DeBruijnShift::shift(-1, &mut body);
        *term = body;
    }
}

/// Repeats single steps of the chosen mode until none applies, or the step
/// budget runs out.
fn reduce_loop(normalize: bool, term: &mut Expression) -> (reduced: bool)
    ensures
        reduced == (spec_step(old(term)@, normalize) is Some),
        exists|k: nat|
            #![trigger cbv_steps(old(term)@, normalize, k)]
            k <= u64::MAX && final(term)@ == cbv_steps(old(term)@, normalize, k) && (spec_step(
                final(term)@,
                normalize,
            ) is None || k == u64::MAX),
{
    let ghost orig = term@;
    let mut any = false;
    let mut fuel: u64 = 0;
    loop
        invariant
            term@ == cbv_steps(orig, normalize, fuel as nat),
            any == (fuel > 0),
            fuel > 0 ==> spec_step(orig, normalize) is Some,
        ensures
            term@ == cbv_steps(orig, normalize, fuel as nat),
            any == (fuel > 0),
            fuel > 0 ==> spec_step(orig, normalize) is Some,
            spec_step(term@, normalize) is None || fuel == u64::MAX,
        decreases u64::MAX - fuel,
    {
        if fuel == u64::MAX {
            break ;
        }
        let e = CallByValueEvaluator::new(normalize);
        let stepped = e.traverse(term);
        if !stepped {
            break ;
        }
        proof {
            lemma_cbv_steps_snoc(orig, normalize, fuel as nat);
        }
        fuel = fuel + 1;
        any = true;
    }
    proof {
        assert(term@ == cbv_steps(orig, normalize, fuel as nat));
    }
    any
}

/// Repeats single steps, recording the named print after each one, until
/// none applies or every vector slot is used.
fn trace_loop(normalize: bool, term: &mut Expression) -> (r: Vec<String>)
    ensures
        final(term)@ == cbv_steps(old(term)@, normalize, r@.len() as nat),
        spec_step(final(term)@, normalize) is None || r@.len() == usize::MAX,
        forall|i: int|
            0 <= i < r@.len() ==> r.deep_view()[i] == spec_format(
                cbv_steps(old(term)@, normalize, (i + 1) as nat),
                PrinterMode::Named,
            ),
{
    let ghost orig = term@;
    let mut out: Vec<String> = Vec::new();
    loop
        invariant
            term@ == cbv_steps(orig, normalize, out@.len() as nat),
            forall|i: int|
                0 <= i < out@.len() ==> out.deep_view()[i] == spec_format(
                    cbv_steps(orig, normalize, (i + 1) as nat),
                    PrinterMode::Named,
                ),
        ensures
            term@ == cbv_steps(orig, normalize, out@.len() as nat),
            spec_step(term@, normalize) is None || out@.len() == usize::MAX,
            forall|i: int|
                0 <= i < out@.len() ==> out.deep_view()[i] == spec_format(
                    cbv_steps(orig, normalize, (i + 1) as nat),
                    PrinterMode::Named,
                ),
        decreases usize::MAX - out@.len(),
    {
        if out.len() == usize::MAX {
            break ;
        }
        let e = CallByValueEvaluator::new(normalize);
        let stepped = e.traverse(term);
        if !stepped {
            break ;
        }
        proof {
            lemma_cbv_steps_snoc(orig, normalize, out@.len() as nat);
        }
        let ghost before = out.deep_view();
        let snapshot = ExpressionPrettyPrinter::format_named(term);
        out.push(snapshot);
        proof {
            assert(out.deep_view() =~= before.push(out@.last()@));
        }
    }
    out
}

impl BetaReduction for CallByValueEvaluator {
    open spec fn step(m: ExprModel) -> Option<ExprModel> {
        spec_step(m, false)
    }

    open spec fn steps(m: ExprModel, k: nat) -> ExprModel {
        cbv_steps(m, false, k)
    }

    proof fn lemma_steps_unfold(m: ExprModel, k: nat) {
    }

    fn reduce_once(term: &mut Expression) -> (reduced: bool) {
        Self::evaluate(term)
    }

    fn reduce(term: &mut Expression) -> (reduced: bool) {
        let r = reduce_loop(false, term);
        proof {
            let k0 = choose|k: nat|
                #![trigger cbv_steps(old(term)@, false, k)]
                k <= u64::MAX && term@ == cbv_steps(old(term)@, false, k) && (spec_step(
                    term@,
                    false,
                ) is None || k == u64::MAX);
            assert(Self::steps(old(term)@, k0) == cbv_steps(old(term)@, false, k0));
        }
        r
    }
}

impl TracingBetaReduction for CallByValueEvaluator {
    fn trace_once(term: &mut Expression) -> (r: Option<String>) {
        if Self::evaluate(term) {
            Some(ExpressionPrettyPrinter::format_named(term))
        } else {
            None
        }
    }

    fn trace(term: &mut Expression) -> (r: Vec<String>) {
        trace_loop(false, term)
    }
}

/// Full beta reduction: the evaluator with normalization switched on.
pub struct FullBetaEvaluator;

impl BetaReduction for FullBetaEvaluator {
    open spec fn step(m: ExprModel) -> Option<ExprModel> {
        spec_step(m, true)
    }

    open spec fn steps(m: ExprModel, k: nat) -> ExprModel {
        cbv_steps(m, true, k)
    }

    proof fn lemma_steps_unfold(m: ExprModel, k: nat) {
    }

    fn reduce_once(term: &mut Expression) -> (reduced: bool) {
        CallByValueEvaluator::normalize(term)
    }

    fn reduce(term: &mut Expression) -> (reduced: bool) {
        let r = reduce_loop(true, term);
        proof {
            let k0 = choose|k: nat|
                #![trigger cbv_steps(old(term)@, true, k)]
                k <= u64::MAX && term@ == cbv_steps(old(term)@, true, k) && (spec_step(
                    term@,
                    true,
                ) is None || k == u64::MAX);
            assert(Self::steps(old(term)@, k0) == cbv_steps(old(term)@, true, k0));
        }
        r
    }
}

impl TracingBetaReduction for FullBetaEvaluator {
    fn trace_once(term: &mut Expression) -> (r: Option<String>) {
        if CallByValueEvaluator::normalize(term) {
            Some(ExpressionPrettyPrinter::format_named(term))
        } else {
            None
        }
    }

    fn trace(term: &mut Expression) -> (r: Vec<String>) {
        trace_loop(true, term)
    }
}

} // verus!
