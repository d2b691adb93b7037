//! Rewriting a term node in place through a function that takes it by value:
//! the swap-with-dummy pattern the reducer's contraction also uses.

use vstd::prelude::*;

use crate::expression::variable::Variable;
use crate::expression::Expression;

verus! {

/// Replaces `*dst` by `f` applied to it.
pub fn replace_term<F: FnOnce(Expression) -> Expression>(dst: &mut Expression, f: F)
    requires
        call_requires(f, (*old(dst),)),
    ensures
        call_ensures(f, (*old(dst),), *final(dst)),
{
    let mut owned = Expression::Variable(Variable::new(""));
    core::mem::swap(dst, &mut owned);
    let replacement = f(owned);
    *dst = replacement;
}

/// Replaces `*dst` by whichever term `f` hands back, and reports whether it
/// was the success side.
pub fn try_replace_term<F: FnOnce(Expression) -> Result<Expression, Expression>>(
    dst: &mut Expression,
    f: F,
) -> (replaced: bool)
    requires
        call_requires(f, (*old(dst),)),
    ensures
        replaced ==> call_ensures(
            f,
            (*old(dst),),
            Result::<Expression, Expression>::Ok(*final(dst)),
        ),
        !replaced ==> call_ensures(
            f,
            (*old(dst),),
            Result::<Expression, Expression>::Err(*final(dst)),
        ),
{
    let mut owned = Expression::Variable(Variable::new(""));
    core::mem::swap(dst, &mut owned);
    match f(owned) {
        Ok(replacement) => {
            *dst = replacement;
            true
        },
        Err(unchanged) => {
            *dst = unchanged;
            false
        },
    }
}

} // verus!
