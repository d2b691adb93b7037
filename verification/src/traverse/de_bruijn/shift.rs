//! Shifting: add a displacement to every variable whose index is at least the
//! cutoff. The initial cutoff is 1; descending into an abstraction raises it
//! by one, so bound variables stay put. Indices saturate at the ends of the
//! `u64` range; in well-formed reductions the clamps are never reached.

use vstd::prelude::*;

use crate::arith::{clamp_add, sat_add_signed_u64, sat_add_u64};
use crate::expression::variable::VarModel;
use crate::expression::{ExprModel, Expression};

verus! {

/// The shifted term: every variable with index at least `cutoff` is moved by
/// `place`; an abstraction's body is shifted with the cutoff one higher. The
/// type slot of a typed abstraction carries no indices of the term and stays
/// unchanged.
pub open spec fn spec_shift(m: ExprModel, place: int, cutoff: u64) -> ExprModel
    decreases m,
{
    match m {
        ExprModel::Variable(v) => ExprModel::Variable(
            VarModel {
                symbol: v.symbol,
                index: if v.index >= cutoff {
                    clamp_add(v.index, place)
                } else {
                    v.index
                },
            },
        ),
        ExprModel::Abstraction { parameter, body } => ExprModel::Abstraction {
            parameter,
            body: Box::new(spec_shift(*body, place, clamp_add(cutoff, 1))),
        },
        ExprModel::TypedAbstraction { parameter, parameter_type, body } =>
            ExprModel::TypedAbstraction {
            parameter,
            parameter_type,
            body: Box::new(spec_shift(*body, place, clamp_add(cutoff, 1))),
        },
        ExprModel::Application { applicator, argument } => ExprModel::Application {
            applicator: Box::new(spec_shift(*applicator, place, cutoff)),
            argument: Box::new(spec_shift(*argument, place, cutoff)),
        },
    }
}

/// The number of binders on the deepest path the index operations walk; the
/// type slot of a typed abstraction is not entered.
pub open spec fn binder_height(m: ExprModel) -> nat
    decreases m,
{
    match m {
        ExprModel::Variable(_) => 0,
        ExprModel::Abstraction { body, .. } => 1 + binder_height(*body),
        ExprModel::TypedAbstraction { body, .. } => 1 + binder_height(*body),
        ExprModel::Application { applicator, argument } => {
            let left = binder_height(*applicator);
            let right = binder_height(*argument);
            if left >= right {
                left
            } else {
                right
            }
        },
    }
}

/// Every variable index the operations can reach is at most `bound`.
pub open spec fn vars_within(m: ExprModel, bound: int) -> bool
    decreases m,
{
    match m {
        ExprModel::Variable(v) => v.index <= bound,
        ExprModel::Abstraction { body, .. } => vars_within(*body, bound),
        ExprModel::TypedAbstraction { body, .. } => vars_within(*body, bound),
        ExprModel::Application { applicator, argument } => vars_within(*applicator, bound)
            && vars_within(*argument, bound),
    }
}

/// A bound on the indices stays a bound when it grows.
pub proof fn lemma_vars_within_mono(m: ExprModel, bound: int, wider: int)
    requires
        vars_within(m, bound),
        bound <= wider,
    ensures
        vars_within(m, wider),
    decreases m,
{
    match m {
        ExprModel::Variable(_) => {},
        ExprModel::Abstraction { body, .. } => {
            lemma_vars_within_mono(*body, bound, wider);
        },
        ExprModel::TypedAbstraction { body, .. } => {
            lemma_vars_within_mono(*body, bound, wider);
        },
        ExprModel::Application { applicator, argument } => {
            lemma_vars_within_mono(*applicator, bound, wider);
            lemma_vars_within_mono(*argument, bound, wider);
        },
    }
}

/// Two upward shifts at one cutoff add up: even at the clamp, since both
/// displacements point the same way.
pub proof fn lemma_shift_compose(m: ExprModel, p: int, q: int, cutoff: u64)
    requires
        p >= 0,
        q >= 0,
    ensures
        spec_shift(spec_shift(m, p, cutoff), q, cutoff) == spec_shift(m, p + q, cutoff),
    decreases m,
{
    match m {
        ExprModel::Variable(_) => {},
        ExprModel::Abstraction { body, .. } => {
            lemma_shift_compose(*body, p, q, clamp_add(cutoff, 1));
        },
        ExprModel::TypedAbstraction { body, .. } => {
            lemma_shift_compose(*body, p, q, clamp_add(cutoff, 1));
        },
        ExprModel::Application { applicator, argument } => {
            lemma_shift_compose(*applicator, p, q, cutoff);
            lemma_shift_compose(*argument, p, q, cutoff);
        },
    }
}

/// A shift up by `k` followed by a shift down by one over the vanished
/// binder is a shift up by `k - 1`, as long as no index and no cutoff can
/// reach a clamp.
pub proof fn lemma_shift_cancel(m: ExprModel, k: u64, c: u64)
    requires
        1 <= k,
        1 <= c,
        vars_within(m, u64::MAX - k),
        k + c + binder_height(m) <= u64::MAX,
    ensures
        spec_shift(spec_shift(m, k as int, c), -1, (k + c - 1) as u64) == spec_shift(
            m,
            k as int - 1,
            c,
        ),
    decreases m,
{
    match m {
        ExprModel::Variable(_) => {},
        ExprModel::Abstraction { body, .. } => {
            lemma_shift_cancel(*body, k, (c + 1) as u64);
        },
        ExprModel::TypedAbstraction { body, .. } => {
            lemma_shift_cancel(*body, k, (c + 1) as u64);
        },
        ExprModel::Application { applicator, argument } => {
            lemma_shift_cancel(*applicator, k, c);
            lemma_shift_cancel(*argument, k, c);
        },
    }
}

/// Shifts De Bruijn indices in place.
pub struct DeBruijnShift;

impl DeBruijnShift {
    /// Adds `place` to every variable with index at least 1 — that is, to
    /// every variable of a resolved term — keeping bound variables pointed at
    /// their binders.
    pub fn shift(place: i64, term: &mut Expression)
        ensures
            final(term)@ == spec_shift(old(term)@, place as int, 1),
    {
        Self::traverse(place, 1, term)
    }

    fn traverse(place: i64, cutoff: u64, term: &mut Expression)
        ensures
            final(term)@ == spec_shift(old(term)@, place as int, cutoff),
        decreases *old(term),
    {
        match term {
            Expression::Variable(v) => {
                if v.index >= cutoff {
                    v.index = sat_add_signed_u64(v.index, place);
                }
            },
            Expression::Abstraction(a) => {
                Self::traverse(place, sat_add_u64(cutoff, 1), &mut a.body);
            },
            Expression::TypedAbstraction(t) => {
                Self::traverse(place, sat_add_u64(cutoff, 1), &mut t.body);
            },
            Expression::Application(a) => {
                Self::traverse(place, cutoff, &mut a.applicator);
                Self::traverse(place, cutoff, &mut a.argument);
            },
        }
    }
}

} // verus!
