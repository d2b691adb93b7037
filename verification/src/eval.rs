//! Beta-reduction strategies. A strategy is named by the single step it
//! performs; reducing repeats that step until none applies, and tracing
//! additionally records the named print of the term after every step.
//!
//! The calculus is Turing-complete, so no strategy is guaranteed to finish:
//! the repeating forms give up after an astronomically large number of steps
//! (`u64::MAX`, or one snapshot per possible vector slot when tracing), and
//! their contracts say so.

pub mod by_value;

use vstd::prelude::*;

use crate::expression::{ExprModel, Expression};
use crate::traverse::pretty_print::{spec_format, PrinterMode};

verus! {

/// A beta-reduction strategy: one rewriting step, repeated to exhaustion.
pub trait BetaReduction {
    /// The single step this strategy performs: the term after one reduction,
    /// or `None` when no redex this strategy contracts remains.
    spec fn step(m: ExprModel) -> Option<ExprModel>;

    /// `k` steps of the strategy; a term no step applies to stays put. Each
    /// strategy defines it, and [`Self::lemma_steps_unfold`] holds every
    /// definition to being exactly the iteration of [`Self::step`].
    spec fn steps(m: ExprModel, k: nat) -> ExprModel;

    /// The defining property of [`Self::steps`]: zero steps change nothing,
    /// and `k + 1` steps are one step followed by `k` more.
    proof fn lemma_steps_unfold(m: ExprModel, k: nat)
        ensures
            Self::steps(m, k) == (if k == 0 {
                m
            } else {
                match Self::step(m) {
                    Some(m2) => Self::steps(m2, (k - 1) as nat),
                    None => m,
                }
            });

    /// Performs one step in place; `true` iff a redex was contracted.
    fn reduce_once(term: &mut Expression) -> (reduced: bool)
        ensures
            reduced == (Self::step(old(term)@) is Some),
            final(term)@ == (match Self::step(old(term)@) {
                Some(m2) => m2,
                None => old(term)@,
            });

    /// Repeats [`Self::reduce_once`] until it reports no step, leaving the
    /// term at the strategy's normal form; `true` iff at least one step
    /// occurred.
    fn reduce(term: &mut Expression) -> (reduced: bool)
        ensures
            reduced == (Self::step(old(term)@) is Some),
            exists|k: nat|
                #![trigger Self::steps(old(term)@, k)]
                k <= u64::MAX && final(term)@ == Self::steps(old(term)@, k) && (Self::step(
                    final(term)@,
                ) is None || k == u64::MAX);
}

/// A strategy that also reports each intermediate form, printed in Named
/// mode.
pub trait TracingBetaReduction: BetaReduction {
    /// Performs one step; on success, the named print of the new term.
    fn trace_once(term: &mut Expression) -> (r: Option<String>)
        ensures
            (r is Some) <==> (Self::step(old(term)@) is Some),
            final(term)@ == (match Self::step(old(term)@) {
                Some(m2) => m2,
                None => old(term)@,
            }),
            r matches Some(s) ==> s@ == spec_format(final(term)@, PrinterMode::Named);

    /// Repeats [`Self::trace_once`] to exhaustion; the ordered snapshots, one
    /// per step taken, each the named print of the term after that step.
    fn trace(term: &mut Expression) -> (r: Vec<String>)
        ensures
            final(term)@ == Self::steps(old(term)@, r@.len() as nat),
            Self::step(final(term)@) is None || r@.len() == usize::MAX,
            forall|i: int|
                0 <= i < r@.len() ==> r.deep_view()[i] == spec_format(
                    Self::steps(old(term)@, (i + 1) as nat),
                    PrinterMode::Named,
                );
}

} // verus!
