//! Capture-avoiding substitution: replace every variable that carries the
//! target index by a copy of the replacement. Under a binder the target rises
//! by one and the replacement is shifted by one, so the replacement's free
//! variables stay valid.

use vstd::prelude::*;

use crate::arith::{clamp_add, sat_add_u64};
use crate::expression::variable::DeBruijnIndex;
use crate::expression::{ExprModel, Expression};
use crate::traverse::de_bruijn::shift::{spec_shift, DeBruijnShift};

verus! {

/// The term with `replacement` put in place of every variable whose index is
/// `target`. The type slot of a typed abstraction stays unchanged.
pub open spec fn spec_substitute(m: ExprModel, target: u64, replacement: ExprModel) -> ExprModel
    decreases m,
{
    match m {
        ExprModel::Variable(v) => if v.index == target {
            replacement
        } else {
            m
        },
        ExprModel::Abstraction { parameter, body } => ExprModel::Abstraction {
            parameter,
            body: Box::new(
                spec_substitute(*body, clamp_add(target, 1), spec_shift(replacement, 1, 1)),
            ),
        },
        ExprModel::TypedAbstraction { parameter, parameter_type, body } =>
            ExprModel::TypedAbstraction {
            parameter,
            parameter_type,
            body: Box::new(
                spec_substitute(*body, clamp_add(target, 1), spec_shift(replacement, 1, 1)),
            ),
        },
        ExprModel::Application { applicator, argument } => ExprModel::Application {
            applicator: Box::new(spec_substitute(*applicator, target, replacement)),
            argument: Box::new(spec_substitute(*argument, target, replacement)),
        },
    }
}

/// Substitutes a term for an index, in place.
pub struct DeBruijnSubstitution;

impl DeBruijnSubstitution {
    /// Replaces every variable with index `target` in `term` by a copy of
    /// `replacement`, shifting the copy under each binder it crosses.
    pub fn substitute(target: DeBruijnIndex, replacement: Expression, term: &mut Expression)
        ensures
            final(term)@ == spec_substitute(old(term)@, target, replacement@),
    {
        Self::traverse(target, &replacement, term)
    }

    fn traverse(target: DeBruijnIndex, replacement: &Expression, term: &mut Expression)
        ensures
            final(term)@ == spec_substitute(old(term)@, target, replacement@),
        decreases *old(term),
    {
        match term {
            Expression::Variable(v) => {
                if v.index == target {
                    *term = replacement.clone();
                }
            },
            Expression::Abstraction(a) => {
                let mut shifted = replacement.clone();
                DeBruijnShift::shift(1, &mut shifted);
                Self::traverse(sat_add_u64(target, 1), &shifted, &mut a.body);
            },
            Expression::TypedAbstraction(t) => {
                let mut shifted = replacement.clone();
                DeBruijnShift::shift(1, &mut shifted);
                Self::traverse(sat_add_u64(target, 1), &shifted, &mut t.body);
            },
            Expression::Application(a) => {
                Self::traverse(target, replacement, &mut a.applicator);
                Self::traverse(target, replacement, &mut a.argument);
            },
        }
    }
}

} // verus!
