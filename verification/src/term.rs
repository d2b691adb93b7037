//! Validated term wrappers for the simply-typed surface: a term form and a
//! type form, each a shape check over the common expression tree.

use vstd::prelude::*;

use crate::expression::{ExprModel, Expression};

verus! {

/// A validated wrapper around an expression tree.
pub trait Term {
    /// The wrapped expression's mathematical value.
    spec fn model(&self) -> ExprModel;

    /// What shape the wrapper demands of its expression.
    spec fn wf(m: ExprModel) -> bool;

    /// The wrapped expression.
    fn as_expr(&self) -> (r: &Expression)
        ensures
            r@ == self.model();

    /// Whether the wrapped expression still has the demanded shape.
    fn validate(&self) -> (r: bool)
        ensures
            r == Self::wf(self.model());
}

/// True of resolved terms of the simply-typed surface: variables carry an
/// index, every abstraction is typed, applications are wellformed on both
/// sides.
pub open spec fn spec_valid_simply_typed(m: ExprModel) -> bool
    decreases m,
{
    match m {
        ExprModel::Variable(v) => v.index != 0,
        ExprModel::TypedAbstraction { body, .. } => spec_valid_simply_typed(*body),
        ExprModel::Application { applicator, argument } => spec_valid_simply_typed(*applicator)
            && spec_valid_simply_typed(*argument),
        _ => false,
    }
}

/// True of resolved type expressions: variables carry an index, and only
/// variables and applications occur.
pub open spec fn spec_valid_simple_type(m: ExprModel) -> bool
    decreases m,
{
    match m {
        ExprModel::Variable(v) => v.index != 0,
        ExprModel::Application { applicator, argument } => spec_valid_simple_type(*applicator)
            && spec_valid_simple_type(*argument),
        _ => false,
    }
}

/// A term of the simply-typed surface.
pub struct SimplyTypedLambdaTerm {
    pub expression: Expression,
}

impl SimplyTypedLambdaTerm {
    /// Decides [`spec_valid_simply_typed`].
    pub fn validate(expression: &Expression) -> (r: bool)
        ensures
            r == spec_valid_simply_typed(expression@),
        decreases *expression,
    {
        match expression {
            Expression::Variable(v) => v.index != 0,
            Expression::TypedAbstraction(t) => Self::validate(&t.body),
            Expression::Application(a) => Self::validate(&a.applicator) && Self::validate(
                &a.argument,
            ),
            _ => false,
        }
    }
}

impl TryFrom<Expression> for SimplyTypedLambdaTerm {
    type Error = ();

    fn try_from(value: Expression) -> (r: Result<SimplyTypedLambdaTerm, ()>) {
        if SimplyTypedLambdaTerm::validate(&value) {
            Ok(SimplyTypedLambdaTerm { expression: value })
        } else {
            Err(())
        }
    }
}

impl vstd::std_specs::convert::TryFromSpecImpl<Expression> for SimplyTypedLambdaTerm {
    open spec fn obeys_try_from_spec() -> bool {
        true
    }

    open spec fn try_from_spec(value: Expression) -> Result<SimplyTypedLambdaTerm, ()> {
        if spec_valid_simply_typed(value@) {
            Ok(SimplyTypedLambdaTerm { expression: value })
        } else {
            Err(())
        }
    }
}

impl Term for SimplyTypedLambdaTerm {
    open spec fn model(&self) -> ExprModel {
        self.expression@
    }

    open spec fn wf(m: ExprModel) -> bool {
        spec_valid_simply_typed(m)
    }

    fn as_expr(&self) -> (r: &Expression) {
        &self.expression
    }

    fn validate(&self) -> (r: bool) {
        SimplyTypedLambdaTerm::validate(&self.expression)
    }
}

/// A type expression of the simply-typed surface.
pub struct SimpleType {
    pub expression: Expression,
}

impl SimpleType {
    /// Decides [`spec_valid_simple_type`].
    pub fn validate(expression: &Expression) -> (r: bool)
        ensures
            r == spec_valid_simple_type(expression@),
        decreases *expression,
    {
        match expression {
            Expression::Variable(v) => v.index != 0,
            Expression::Application(a) => Self::validate(&a.applicator) && Self::validate(
                &a.argument,
            ),
            _ => false,
        }
    }
}

impl TryFrom<Expression> for SimpleType {
    type Error = ();

    fn try_from(value: Expression) -> (r: Result<SimpleType, ()>) {
        if SimpleType::validate(&value) {
            Ok(SimpleType { expression: value })
        } else {
            Err(())
        }
    }
}

impl vstd::std_specs::convert::TryFromSpecImpl<Expression> for SimpleType {
    open spec fn obeys_try_from_spec() -> bool {
        true
    }

    open spec fn try_from_spec(value: Expression) -> Result<SimpleType, ()> {
        if spec_valid_simple_type(value@) {
            Ok(SimpleType { expression: value })
        } else {
            Err(())
        }
    }
}

impl Term for SimpleType {
    open spec fn model(&self) -> ExprModel {
        self.expression@
    }

    open spec fn wf(m: ExprModel) -> bool {
        spec_valid_simple_type(m)
    }

    fn as_expr(&self) -> (r: &Expression) {
        &self.expression
    }

    fn validate(&self) -> (r: bool) {
        SimpleType::validate(&self.expression)
    }
}

} // verus!
