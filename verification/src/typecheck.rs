//! The type checker of the simply-typed surface: every variable must carry
//! the expected type in the context its binders build up.

use vstd::prelude::*;

use crate::expression::variable::{VarModel, Variable};
use crate::expression::{ExprModel, Expression};
use crate::term::{SimpleType, SimplyTypedLambdaTerm, Term};

verus! {

/// A checker of a term form against a type form.
pub trait TypeChecker<E, T> {
    /// What the checker decides.
    spec fn check_spec(term: &E, term_type: &T) -> bool;

    /// Whether `term` checks against `term_type`.
    fn check(term: &E, term_type: &T) -> (r: bool)
        ensures
            r == Self::check_spec(term, term_type);
}

/// The type context a list of entries stands for: later entries override
/// earlier ones with the same variable.
pub open spec fn assoc_map(s: Seq<(Variable, Expression)>) -> Map<VarModel, ExprModel>
    decreases s.len(),
{
    if s.len() == 0 {
        Map::empty()
    } else {
        assoc_map(s.drop_last()).insert(s.last().0@, s.last().1@)
    }
}

/// The outcome of checking `m` against `ty` under context `ctx`, and the
/// context as the walk leaves it: a variable must be in the context at
/// exactly `ty`; a typed abstraction binds its parameter around its body and
/// drops it afterwards; an application checks both sides in order, the right
/// side only when the left succeeded; an untyped abstraction has no type and
/// fails.
pub open spec fn spec_typecheck(m: ExprModel, ty: ExprModel, ctx: Map<VarModel, ExprModel>) -> (
    bool,
    Map<VarModel, ExprModel>,
)
    decreases m,
{
    match m {
        ExprModel::Variable(v) => (ctx.contains_key(v) && ctx[v] == ty, ctx),
        ExprModel::TypedAbstraction { parameter, parameter_type, body } => {
            let (r, ctx2) = spec_typecheck(*body, ty, ctx.insert(parameter, *parameter_type));
            (r, ctx2.remove(parameter))
        },
        ExprModel::Application { applicator, argument } => {
            let (left, ctx1) = spec_typecheck(*applicator, ty, ctx);
            if left {
                spec_typecheck(*argument, ty, ctx1)
            } else {
                (false, ctx1)
            }
        },
        _ => (false, ctx),
    }
}

/// Checks a simply-typed term against a simple type.
pub struct SimplyTypedLambdaTypeChecker;

impl SimplyTypedLambdaTypeChecker {
    /// Whether `expression` checks against `term_type` in the empty context.
    pub fn check_expression(expression: &Expression, term_type: &Expression) -> (r: bool)
        ensures
            r == spec_typecheck(expression@, term_type@, Map::empty()).0,
    {
        let mut ctx: Vec<(Variable, Expression)> = Vec::new();
        Self::traverse(expression, term_type, &mut ctx)
    }

    fn traverse(
        expression: &Expression,
        term_type: &Expression,
        ctx: &mut Vec<(Variable, Expression)>,
    ) -> (r: bool)
        ensures
            ({
                let (sr, sc) = spec_typecheck(expression@, term_type@, assoc_map(old(ctx)@));
                r == sr && assoc_map(final(ctx)@) == sc
            }),
        decreases *expression,
    {
        match expression {
            Expression::Variable(v) => Self::lookup(ctx, v, term_type),
            Expression::TypedAbstraction(t) => {
                let entry = (t.parameter.clone(), t.parameter_type.clone());
                ctx.push(entry);
                proof {
                    assert(ctx@.drop_last() =~= old(ctx)@);
                }
                let r = Self::traverse(&t.body, term_type, ctx);
                Self::remove_key(ctx, &t.parameter);
                r
            },
            Expression::Application(a) => {
                if Self::traverse(&a.applicator, term_type, ctx) {
                    Self::traverse(&a.argument, term_type, ctx)
                } else {
                    false
                }
            },
            _ => false,
        }
    }

    /// Whether the context holds `v` at exactly `ty`: the last entry for `v`
    /// decides.
    fn lookup(ctx: &Vec<(Variable, Expression)>, v: &Variable, ty: &Expression) -> (r: bool)
        ensures
            r == ({
                let m = assoc_map(ctx@);
                m.contains_key(v@) && m[v@] == ty@
            }),
    {
        proof {
            assert(ctx@.subrange(0, ctx@.len() as int) =~= ctx@);
        }
        let mut i: usize = ctx.len();
        loop
            invariant
                i <= ctx.len(),
                assoc_map(ctx@).contains_key(v@) == assoc_map(
                    ctx@.subrange(0, i as int),
                ).contains_key(v@),
                assoc_map(ctx@).contains_key(v@) ==> assoc_map(ctx@.subrange(0, i as int))[v@]
                    == assoc_map(ctx@)[v@],
            decreases i,
        {
            if i == 0 {
                return false;
            }
            i = i - 1;
            proof {
                assert(ctx@.subrange(0, i + 1).drop_last() =~= ctx@.subrange(0, i as int));
                assert(ctx@.subrange(0, i + 1).last() == ctx@[i as int]);
            }
            let entry = &ctx[i];
            if entry.0.symbol.eq(&v.symbol) && entry.0.index == v.index {
                return entry.1.eq(ty);
            }
        }
    }

    /// Drops every entry for `key` from the context.
    fn remove_key(ctx: &mut Vec<(Variable, Expression)>, key: &Variable)
        ensures
            assoc_map(final(ctx)@) == assoc_map(old(ctx)@).remove(key@),
    {
        let ghost orig = ctx@;
        let mut out: Vec<(Variable, Expression)> = Vec::new();
        proof {
            assert(orig.subrange(0, 0) =~= Seq::<(Variable, Expression)>::empty());
            assert(assoc_map(out@) =~= assoc_map(orig.subrange(0, 0)).remove(key@));
        }
        let mut i: usize = 0;
        loop
            invariant
                i <= ctx@.len(),
                ctx@ == orig,
                assoc_map(out@) == assoc_map(orig.subrange(0, i as int)).remove(key@),
            ensures
                ctx@ == orig,
                assoc_map(out@) == assoc_map(orig.subrange(0, ctx@.len() as int)).remove(key@),
            decreases ctx@.len() - i,
        {
            if i == ctx.len() {
                break ;
            }
            proof {
                assert(orig.subrange(0, i + 1).drop_last() =~= orig.subrange(0, i as int));
                assert(orig.subrange(0, i + 1).last() == orig[i as int]);
            }
            let entry = &ctx[i];
            if entry.0.symbol.eq(&key.symbol) && entry.0.index == key.index {
                proof {
                    assert(assoc_map(orig.subrange(0, i + 1)).remove(key@) =~= assoc_map(
                        orig.subrange(0, i as int),
                    ).remove(key@));
                }
            } else {
                let pair = (entry.0.clone(), entry.1.clone());
                let ghost prev = out@;
                out.push(pair);
                proof {
                    assert(out@.drop_last() =~= prev);
                    assert(assoc_map(orig.subrange(0, i + 1)).remove(key@) =~= assoc_map(
                        orig.subrange(0, i as int),
                    ).remove(key@).insert(orig[i as int].0@, orig[i as int].1@));
                }
            }
            i = i + 1;
        }
        proof {
            assert(orig.subrange(0, orig.len() as int) =~= orig);
        }
        *ctx = out;
    }
}

impl TypeChecker<SimplyTypedLambdaTerm, SimpleType> for SimplyTypedLambdaTypeChecker {
    open spec fn check_spec(term: &SimplyTypedLambdaTerm, term_type: &SimpleType) -> bool {
        spec_typecheck(term.expression@, term_type.expression@, Map::empty()).0
    }

    /// Whether the wrapped term checks against the wrapped type in the empty
    /// context.
    fn check(term: &SimplyTypedLambdaTerm, term_type: &SimpleType) -> (r: bool) {
        Self::check_expression(term.as_expr(), term_type.as_expr())
    }
}

} // verus!
