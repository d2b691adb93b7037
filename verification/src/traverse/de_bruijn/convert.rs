//! The resolver: walks a freshly parsed term and replaces every variable's
//! index by its De Bruijn index. A bound occurrence gets the distance to its
//! binder; a free name gets a slot past the local binder depth, fixed at its
//! first appearance, so every occurrence of the same free name carries the
//! same slot.

use vstd::prelude::*;

use crate::arith::{clamp_to_u64, sat_add_u64};
use crate::expression::variable::VarModel;
use crate::expression::{ExprModel, Expression};

verus! {

/// The position of the innermost binder of `sym` on the binder stack
/// (`0` is the outermost binder), or `None` when `sym` is not bound.
pub open spec fn find_binder(binders: Seq<Seq<char>>, sym: Seq<char>) -> Option<int>
    decreases binders.len(),
{
    if binders.len() == 0 {
        None
    } else if binders.last() == sym {
        Some(binders.len() - 1)
    } else {
        find_binder(binders.drop_last(), sym)
    }
}

/// The position of the first occurrence of `sym` among the free names met so
/// far, or `None` when `sym` is new.
pub open spec fn find_free(frees: Seq<Seq<char>>, sym: Seq<char>) -> Option<int>
    decreases frees.len(),
{
    if frees.len() == 0 {
        None
    } else if frees[0] == sym {
        Some(0int)
    } else {
        match find_free(frees.subrange(1, frees.len() as int), sym) {
            Some(k) => Some(k + 1),
            None => None,
        }
    }
}

/// The resolved term and the free names after it, walking with the given
/// binder stack and the free names met so far. A bound variable at stack
/// position `j` gets index `binders.len() - j`; a free name in slot `k`
/// (0-based) gets index `binders.len() + k + 1`; a new free name takes the
/// next slot. An abstraction's parameter slot and a typed abstraction's type
/// slot are left as they are.
pub open spec fn spec_resolve(
    m: ExprModel,
    binders: Seq<Seq<char>>,
    frees: Seq<Seq<char>>,
) -> (ExprModel, Seq<Seq<char>>)
    decreases m,
{
    match m {
        ExprModel::Variable(v) => match find_binder(binders, v.symbol) {
            Some(j) => (
                ExprModel::Variable(
                    VarModel { symbol: v.symbol, index: clamp_to_u64(binders.len() - j) },
                ),
                frees,
            ),
            None => match find_free(frees, v.symbol) {
                Some(k) => (
                    ExprModel::Variable(
                        VarModel {
                            symbol: v.symbol,
                            index: clamp_to_u64(binders.len() + k + 1),
                        },
                    ),
                    frees,
                ),
                None => (
                    ExprModel::Variable(
                        VarModel {
                            symbol: v.symbol,
                            index: clamp_to_u64(binders.len() + frees.len() as int + 1),
                        },
                    ),
                    frees.push(v.symbol),
                ),
            },
        },
        ExprModel::Abstraction { parameter, body } => {
            let (body2, frees2) = spec_resolve(*body, binders.push(parameter.symbol), frees);
            (ExprModel::Abstraction { parameter, body: Box::new(body2) }, frees2)
        },
        ExprModel::TypedAbstraction { parameter, parameter_type, body } => {
            let (body2, frees2) = spec_resolve(*body, binders.push(parameter.symbol), frees);
            (
                ExprModel::TypedAbstraction {
                    parameter,
                    parameter_type,
                    body: Box::new(body2),
                },
                frees2,
            )
        },
        ExprModel::Application { applicator, argument } => {
            let (left2, frees2) = spec_resolve(*applicator, binders, frees);
            let (right2, frees3) = spec_resolve(*argument, binders, frees2);
            (
                ExprModel::Application {
                    applicator: Box::new(left2),
                    argument: Box::new(right2),
                },
                frees3,
            )
        },
    }
}

/// Resolution idempotence: resolving a term that came out of the resolver,
/// with the same binder stack and free names, changes nothing — neither the
/// term nor the free names.
pub proof fn lemma_resolve_idempotent(m: ExprModel, binders: Seq<Seq<char>>, frees: Seq<Seq<char>>)
    ensures
        spec_resolve(spec_resolve(m, binders, frees).0, binders, frees) == spec_resolve(
            m,
            binders,
            frees,
        ),
    decreases m,
{
    match m {
        ExprModel::Variable(v) => {},
        ExprModel::Abstraction { parameter, body } => {
            lemma_resolve_idempotent(*body, binders.push(parameter.symbol), frees);
        },
        ExprModel::TypedAbstraction { parameter, parameter_type, body } => {
            lemma_resolve_idempotent(*body, binders.push(parameter.symbol), frees);
        },
        ExprModel::Application { applicator, argument } => {
            let (left2, frees2) = spec_resolve(*applicator, binders, frees);
            lemma_resolve_idempotent(*applicator, binders, frees);
            lemma_resolve_idempotent(*argument, binders, frees2);
        },
    }
}

/// Resolution idempotence at the top: resolving an already-resolved term
/// leaves all indices unchanged.
pub proof fn lemma_resolution_idempotent(m: ExprModel)
    ensures
        spec_resolve(
            spec_resolve(m, Seq::<Seq<char>>::empty(), Seq::<Seq<char>>::empty()).0,
            Seq::<Seq<char>>::empty(),
            Seq::<Seq<char>>::empty(),
        ).0 == spec_resolve(m, Seq::<Seq<char>>::empty(), Seq::<Seq<char>>::empty()).0,
{
    lemma_resolve_idempotent(m, Seq::<Seq<char>>::empty(), Seq::<Seq<char>>::empty());
}

/// What it means for a tree to be resolved against a binder stack and one
/// fixed list of free names: a bound occurrence carries the distance to its
/// binder, and a free occurrence of a name at slot `k` carries the index
/// `local depth + k + 1` — the same slot wherever the name occurs.
pub open spec fn indices_resolved(
    m: ExprModel,
    binders: Seq<Seq<char>>,
    frees: Seq<Seq<char>>,
) -> bool
    decreases m,
{
    match m {
        ExprModel::Variable(v) => match find_binder(binders, v.symbol) {
            Some(j) => v.index == clamp_to_u64(binders.len() - j),
            None => match find_free(frees, v.symbol) {
                Some(k) => v.index == clamp_to_u64(binders.len() + k + 1),
                None => false,
            },
        },
        ExprModel::Abstraction { parameter, body } => indices_resolved(
            *body,
            binders.push(parameter.symbol),
            frees,
        ),
        ExprModel::TypedAbstraction { parameter, parameter_type, body } => indices_resolved(
            *body,
            binders.push(parameter.symbol),
            frees,
        ),
        ExprModel::Application { applicator, argument } => indices_resolved(
            *applicator,
            binders,
            frees,
        ) && indices_resolved(*argument, binders, frees),
    }
}

/// Resolution only appends to the free names: what went in stays, in place.
proof fn lemma_resolve_extends_frees(m: ExprModel, binders: Seq<Seq<char>>, frees: Seq<Seq<char>>)
    ensures
        spec_resolve(m, binders, frees).1.len() >= frees.len(),
        spec_resolve(m, binders, frees).1.subrange(0, frees.len() as int) == frees,
    decreases m,
{
    assert(frees.subrange(0, frees.len() as int) =~= frees);
    match m {
        ExprModel::Variable(v) => {
            if find_binder(binders, v.symbol) is None && find_free(frees, v.symbol) is None {
                assert(frees.push(v.symbol).subrange(0, frees.len() as int) =~= frees);
            }
        },
        ExprModel::Abstraction { parameter, body } => {
            lemma_resolve_extends_frees(*body, binders.push(parameter.symbol), frees);
        },
        ExprModel::TypedAbstraction { parameter, parameter_type, body } => {
            lemma_resolve_extends_frees(*body, binders.push(parameter.symbol), frees);
        },
        ExprModel::Application { applicator, argument } => {
            let (left2, frees2) = spec_resolve(*applicator, binders, frees);
            lemma_resolve_extends_frees(*applicator, binders, frees);
            lemma_resolve_extends_frees(*argument, binders, frees2);
            let frees3 = spec_resolve(*argument, binders, frees2).1;
            assert(frees3.subrange(0, frees.len() as int) =~= frees3.subrange(
                0,
                frees2.len() as int,
            ).subrange(0, frees.len() as int));
        },
    }
}

/// The slot of a name among the free names does not move when more names are
/// appended after it.
proof fn lemma_find_free_in_prefix(frees: Seq<Seq<char>>, longer: Seq<Seq<char>>, sym: Seq<char>)
    requires
        longer.len() >= frees.len(),
        longer.subrange(0, frees.len() as int) == frees,
        find_free(frees, sym) is Some,
    ensures
        find_free(longer, sym) == find_free(frees, sym),
    decreases frees.len(),
{
    assert(longer[0] == frees[0]);
    if frees[0] == sym {
    } else {
        let ftail = frees.subrange(1, frees.len() as int);
        let ltail = longer.subrange(1, longer.len() as int);
        assert(ltail.subrange(0, ftail.len() as int) =~= ftail) by {
            assert forall|i: int| 0 <= i < ftail.len() implies ltail[i] == ftail[i] by {
                assert(ltail[i] == longer[i + 1]);
                assert(ftail[i] == frees[i + 1]);
                assert(frees.subrange(0, frees.len() as int)[i + 1] == frees[i + 1]);
            }
        }
        lemma_find_free_in_prefix(ftail, ltail, sym);
    }
}

/// A name not seen yet gets the next slot when it is appended.
proof fn lemma_find_free_push_new(frees: Seq<Seq<char>>, sym: Seq<char>)
    requires
        find_free(frees, sym) is None,
    ensures
        find_free(frees.push(sym), sym) == Some(frees.len() as int),
    decreases frees.len(),
{
    let pushed = frees.push(sym);
    if frees.len() == 0 {
        assert(pushed[0] == sym);
    } else {
        assert(pushed[0] == frees[0]);
        assert(pushed[0] != sym);
        let ftail = frees.subrange(1, frees.len() as int);
        assert(pushed.subrange(1, pushed.len() as int) =~= ftail.push(sym));
        lemma_find_free_push_new(ftail, sym);
    }
}

/// Being resolved is kept when the free names grow at the end: the slots
/// already used do not move.
proof fn lemma_resolved_frees_grow(
    m: ExprModel,
    binders: Seq<Seq<char>>,
    frees: Seq<Seq<char>>,
    longer: Seq<Seq<char>>,
)
    requires
        indices_resolved(m, binders, frees),
        longer.len() >= frees.len(),
        longer.subrange(0, frees.len() as int) == frees,
    ensures
        indices_resolved(m, binders, longer),
    decreases m,
{
    match m {
        ExprModel::Variable(v) => {
            if find_binder(binders, v.symbol) is None {
                lemma_find_free_in_prefix(frees, longer, v.symbol);
            }
        },
        ExprModel::Abstraction { parameter, body } => {
            lemma_resolved_frees_grow(*body, binders.push(parameter.symbol), frees, longer);
        },
        ExprModel::TypedAbstraction { parameter, parameter_type, body } => {
            lemma_resolved_frees_grow(*body, binders.push(parameter.symbol), frees, longer);
        },
        ExprModel::Application { applicator, argument } => {
            lemma_resolved_frees_grow(*applicator, binders, frees, longer);
            lemma_resolved_frees_grow(*argument, binders, frees, longer);
        },
    }
}

/// Free-variable stability: the resolver leaves every tree resolved against
/// the binder stack it walked with and the free names it ends with. In
/// particular, all occurrences of the same free name share the same slot —
/// their indices differ from the local binder depth by one fixed amount.
pub proof fn lemma_resolve_stable(m: ExprModel, binders: Seq<Seq<char>>, frees: Seq<Seq<char>>)
    ensures
        ({
            let (resolved, frees2) = spec_resolve(m, binders, frees);
            indices_resolved(resolved, binders, frees2)
        }),
    decreases m,
{
    match m {
        ExprModel::Variable(v) => {
            if find_binder(binders, v.symbol) is None && find_free(frees, v.symbol) is None {
                lemma_find_free_push_new(frees, v.symbol);
            }
        },
        ExprModel::Abstraction { parameter, body } => {
            lemma_resolve_stable(*body, binders.push(parameter.symbol), frees);
        },
        ExprModel::TypedAbstraction { parameter, parameter_type, body } => {
            lemma_resolve_stable(*body, binders.push(parameter.symbol), frees);
        },
        ExprModel::Application { applicator, argument } => {
            let (left2, frees2) = spec_resolve(*applicator, binders, frees);
            let (right2, frees3) = spec_resolve(*argument, binders, frees2);
            lemma_resolve_stable(*applicator, binders, frees);
            lemma_resolve_stable(*argument, binders, frees2);
            lemma_resolve_extends_frees(*argument, binders, frees2);
            lemma_resolved_frees_grow(left2, binders, frees2, frees3);
        },
    }
}

/// Free-variable stability at the top: after resolution from scratch, one
/// list of free names accounts for every free occurrence in the result.
pub proof fn lemma_free_variable_stability(m: ExprModel)
    ensures
        indices_resolved(
            spec_resolve(m, Seq::<Seq<char>>::empty(), Seq::<Seq<char>>::empty()).0,
            Seq::<Seq<char>>::empty(),
            spec_resolve(m, Seq::<Seq<char>>::empty(), Seq::<Seq<char>>::empty()).1,
        ),
{
    lemma_resolve_stable(m, Seq::<Seq<char>>::empty(), Seq::<Seq<char>>::empty());
}

/// Resolves variable names to De Bruijn indices, in place.
pub struct DeBruijnConverter;

impl DeBruijnConverter {
    /// Resolves every variable of `term`, starting outside any binder with no
    /// free names met yet.
    pub fn convert(term: &mut Expression)
        ensures
            final(term)@ == spec_resolve(
                old(term)@,
                Seq::<Seq<char>>::empty(),
                Seq::<Seq<char>>::empty(),
            ).0,
    {
        let mut binders: Vec<String> = Vec::new();
        let mut frees: Vec<String> = Vec::new();
        proof {
            assert(binders.deep_view() =~= Seq::<Seq<char>>::empty());
            assert(frees.deep_view() =~= Seq::<Seq<char>>::empty());
        }
        Self::traverse(term, &mut binders, &mut frees);
    }

    fn traverse(term: &mut Expression, binders: &mut Vec<String>, frees: &mut Vec<String>)
        ensures
            ({
                let (m2, f2) = spec_resolve(
                    old(term)@,
                    old(binders).deep_view(),
                    old(frees).deep_view(),
                );
                &&& final(term)@ == m2
                &&& final(frees).deep_view() == f2
                &&& final(binders)@ == old(binders)@
            }),
        decreases *old(term),
    {
        match term {
            Expression::Variable(v) => {
                match Self::find_binder_at(binders, &v.symbol) {
                    Some(j) => {
                        v.index = (binders.len() - j) as u64;
                    },
                    None => match Self::find_free_at(frees, &v.symbol) {
                        Some(k) => {
                            v.index = sat_add_u64(
                                sat_add_u64(binders.len() as u64, k as u64),
                                1,
                            );
                        },
                        None => {
                            v.index = sat_add_u64(
                                sat_add_u64(binders.len() as u64, frees.len() as u64),
                                1,
                            );
                            frees.push(v.symbol.clone());
                            assert(frees.deep_view() =~= old(frees).deep_view().push(v.symbol@));
                        },
                    },
                }
            },
            Expression::Abstraction(a) => {
                binders.push(a.parameter.symbol.clone());
                assert(binders.deep_view() =~= old(binders).deep_view().push(a.parameter.symbol@));
                Self::traverse(&mut a.body, binders, frees);
                binders.pop();
                assert(binders@ =~= old(binders)@);
            },
            Expression::TypedAbstraction(t) => {
                binders.push(t.parameter.symbol.clone());
                assert(binders.deep_view() =~= old(binders).deep_view().push(t.parameter.symbol@));
                Self::traverse(&mut t.body, binders, frees);
                binders.pop();
                assert(binders@ =~= old(binders)@);
            },
            Expression::Application(a) => {
                Self::traverse(&mut a.applicator, binders, frees);
                Self::traverse(&mut a.argument, binders, frees);
            },
        }
    }

    /// Scans the binder stack from the innermost end for `sym`.
    fn find_binder_at(binders: &Vec<String>, sym: &String) -> (r: Option<usize>)
        ensures
            match r {
                Some(j) => find_binder(binders.deep_view(), sym@) == Some(j as int) && j
                    < binders.len(),
                None => find_binder(binders.deep_view(), sym@) is None,
            },
    {
        proof {
            let all = binders.deep_view();
            assert(all.subrange(0, all.len() as int) =~= all);
        }
        let mut i: usize = binders.len();
        loop
            invariant
                i <= binders.len(),
                find_binder(binders.deep_view(), sym@) == find_binder(
                    binders.deep_view().subrange(0, i as int),
                    sym@,
                ),
            decreases i,
        {
            if i == 0 {
                return None;
            }
            i = i - 1;
            proof {
                let all = binders.deep_view();
                let prefix = all.subrange(0, i + 1);
                assert(prefix.last() == all[i as int]);
                assert(prefix.drop_last() =~= all.subrange(0, i as int));
            }
            if binders[i].eq(sym) {
                return Some(i);
            }
        }
    }

    /// Scans the free names from the front for `sym`.
    fn find_free_at(frees: &Vec<String>, sym: &String) -> (r: Option<usize>)
        ensures
            match r {
                Some(k) => find_free(frees.deep_view(), sym@) == Some(k as int) && k
                    < frees.len(),
                None => find_free(frees.deep_view(), sym@) is None,
            },
    {
        proof {
            let all = frees.deep_view();
            assert(all.subrange(0, all.len() as int) =~= all);
        }
        let mut i: usize = 0;
        loop
            invariant
                i <= frees.len(),
                ({
                    let all = frees.deep_view();
                    match find_free(all.subrange(i as int, all.len() as int), sym@) {
                        Some(k) => find_free(all, sym@) == Some(k + i),
                        None => find_free(all, sym@) is None,
                    }
                }),
            decreases frees.len() - i,
        {
            if i == frees.len() {
                return None;
            }
            proof {
                let all = frees.deep_view();
                let suffix = all.subrange(i as int, all.len() as int);
                assert(suffix[0] == all[i as int]);
                assert(suffix.subrange(1, suffix.len() as int) =~= all.subrange(
                    i + 1,
                    all.len() as int,
                ));
            }
            if frees[i].eq(sym) {
                return Some(i);
            }
            i = i + 1;
        }
    }
}

} // verus!
