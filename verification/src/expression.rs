//! The term data model: a tagged tree with variants Variable, Abstraction,
//! TypedAbstraction and Application, its mathematical model, and the grammar
//! of lambda expressions.

pub mod abstraction;
pub mod application;
pub mod buffer;
pub mod constant;
pub mod grammar;
pub mod literal;
pub mod symbol;
pub mod term_helpers;
pub mod variable;

use vstd::prelude::*;

use crate::expression::abstraction::{Abstraction, TypedAbstraction};
use crate::expression::application::Application;
use crate::expression::variable::{VarModel, Variable};

verus! {

/// The mathematical value of an [`Expression`]: the same tree with names as
/// character sequences.
pub enum ExprModel {
    Variable(VarModel),
    Abstraction { parameter: VarModel, body: Box<ExprModel> },
    TypedAbstraction { parameter: VarModel, parameter_type: Box<ExprModel>, body: Box<ExprModel> },
    Application { applicator: Box<ExprModel>, argument: Box<ExprModel> },
}

/// A lambda term.
#[derive(Debug)]
pub enum Expression {
    Variable(Variable),
    Abstraction(Box<Abstraction>),
    TypedAbstraction(Box<TypedAbstraction>),
    Application(Box<Application>),
}

impl Expression {
    /// The mathematical value of this term.
    pub open spec fn model(self) -> ExprModel
        decreases self,
    {
        match self {
            Expression::Variable(v) => ExprModel::Variable(v@),
            Expression::Abstraction(a) => ExprModel::Abstraction {
                parameter: a.parameter@,
                body: Box::new(a.body.model()),
            },
            Expression::TypedAbstraction(t) => ExprModel::TypedAbstraction {
                parameter: t.parameter@,
                parameter_type: Box::new(t.parameter_type.model()),
                body: Box::new(t.body.model()),
            },
            Expression::Application(a) => ExprModel::Application {
                applicator: Box::new(a.applicator.model()),
                argument: Box::new(a.argument.model()),
            },
        }
    }
}

impl View for Expression {
    type V = ExprModel;

    open spec fn view(&self) -> ExprModel {
        (*self).model()
    }
}

/// True of the terms call-by-value evaluation stops at: the abstractions,
/// typed or not.
pub open spec fn spec_is_value(m: ExprModel) -> bool {
    m matches ExprModel::Abstraction { .. } || m matches ExprModel::TypedAbstraction { .. }
}

impl Expression {
    /// Whether this term is a value: an abstraction, typed or not.
    pub fn is_value(&self) -> (b: bool)
        ensures
            b == spec_is_value(self@),
    {
        matches!(self, Expression::Abstraction(_) | Expression::TypedAbstraction(_))
    }
}

impl PartialEq for Expression {
    /// Structural equality: same shape, same symbols, same indices.
    fn eq(&self, other: &Expression) -> (r: bool)
        decreases *self,
    {
        match (self, other) {
            (Expression::Variable(x), Expression::Variable(y)) => x.symbol.eq(&y.symbol)
                && x.index == y.index,
            (Expression::Abstraction(x), Expression::Abstraction(y)) => x.parameter.symbol.eq(
                &y.parameter.symbol,
            ) && x.parameter.index == y.parameter.index && x.body.eq(&y.body),
            (Expression::TypedAbstraction(x), Expression::TypedAbstraction(y)) => x
                .parameter
                .symbol
                .eq(&y.parameter.symbol) && x.parameter.index == y.parameter.index
                && x.parameter_type.eq(&y.parameter_type) && x.body.eq(&y.body),
            (Expression::Application(x), Expression::Application(y)) => x.applicator.eq(
                &y.applicator,
            ) && x.argument.eq(&y.argument),
            _ => false,
        }
    }
}

impl vstd::std_specs::cmp::PartialEqSpecImpl for Expression {
    open spec fn obeys_eq_spec() -> bool {
        true
    }

    open spec fn eq_spec(&self, other: &Expression) -> bool {
        self@ == other@
    }
}

impl Clone for Expression {
    fn clone(&self) -> (res: Self)
        ensures
            res == *self,
        decreases *self,
    {
        match self {
            Expression::Variable(v) => Expression::Variable(v.clone()),
            Expression::Abstraction(a) => Expression::Abstraction(
                Box::new(Abstraction { parameter: a.parameter.clone(), body: a.body.clone() }),
            ),
            Expression::TypedAbstraction(t) => Expression::TypedAbstraction(
                Box::new(
                    TypedAbstraction {
                        parameter: t.parameter.clone(),
                        parameter_type: t.parameter_type.clone(),
                        body: t.body.clone(),
                    },
                ),
            ),
            Expression::Application(a) => Expression::Application(
                Box::new(
                    Application { applicator: a.applicator.clone(), argument: a.argument.clone() },
                ),
            ),
        }
    }
}

/// The distinct error kinds of the `Term -> Variable / Abstraction /
/// Application` projections.
#[derive(Debug, PartialEq, Eq, Clone, Copy)]
pub enum ProjectionError {
    NotAVariable,
    NotAnAbstraction,
    NotATypedAbstraction,
    NotAnApplication,
}

impl From<Variable> for Expression {
    fn from(value: Variable) -> (e: Expression) {
        Expression::Variable(value)
    }
}

impl vstd::std_specs::convert::FromSpecImpl<Variable> for Expression {
    open spec fn obeys_from_spec() -> bool {
        true
    }

    open spec fn from_spec(value: Variable) -> Expression {
        Expression::Variable(value)
    }
}

impl From<Abstraction> for Expression {
    fn from(value: Abstraction) -> (e: Expression) {
        Expression::Abstraction(Box::new(value))
    }
}

impl vstd::std_specs::convert::FromSpecImpl<Abstraction> for Expression {
    open spec fn obeys_from_spec() -> bool {
        true
    }

    open spec fn from_spec(value: Abstraction) -> Expression {
        Expression::Abstraction(Box::new(value))
    }
}

impl From<TypedAbstraction> for Expression {
    fn from(value: TypedAbstraction) -> (e: Expression) {
        Expression::TypedAbstraction(Box::new(value))
    }
}

impl vstd::std_specs::convert::FromSpecImpl<TypedAbstraction> for Expression {
    open spec fn obeys_from_spec() -> bool {
        true
    }

    open spec fn from_spec(value: TypedAbstraction) -> Expression {
        Expression::TypedAbstraction(Box::new(value))
    }
}

impl From<Application> for Expression {
    fn from(value: Application) -> (e: Expression) {
        Expression::Application(Box::new(value))
    }
}

impl vstd::std_specs::convert::FromSpecImpl<Application> for Expression {
    open spec fn obeys_from_spec() -> bool {
        true
    }

    open spec fn from_spec(value: Application) -> Expression {
        Expression::Application(Box::new(value))
    }
}

impl TryFrom<Expression> for Variable {
    type Error = ProjectionError;

    fn try_from(term: Expression) -> (r: Result<Variable, ProjectionError>) {
        match term {
            Expression::Variable(v) => Ok(v),
            _ => Err(ProjectionError::NotAVariable),
        }
    }
}

impl vstd::std_specs::convert::TryFromSpecImpl<Expression> for Variable {
    open spec fn obeys_try_from_spec() -> bool {
        true
    }

    open spec fn try_from_spec(term: Expression) -> Result<Variable, ProjectionError> {
        match term {
            Expression::Variable(v) => Ok(v),
            _ => Err(ProjectionError::NotAVariable),
        }
    }
}

impl TryFrom<Expression> for Abstraction {
    type Error = ProjectionError;

    fn try_from(term: Expression) -> (r: Result<Abstraction, ProjectionError>) {
        match term {
            Expression::Abstraction(a) => Ok(*a),
            _ => Err(ProjectionError::NotAnAbstraction),
        }
    }
}

impl vstd::std_specs::convert::TryFromSpecImpl<Expression> for Abstraction {
    open spec fn obeys_try_from_spec() -> bool {
        true
    }

    open spec fn try_from_spec(term: Expression) -> Result<Abstraction, ProjectionError> {
        match term {
            Expression::Abstraction(a) => Ok(*a),
            _ => Err(ProjectionError::NotAnAbstraction),
        }
    }
}

impl TryFrom<Expression> for TypedAbstraction {
    type Error = ProjectionError;

    fn try_from(term: Expression) -> (r: Result<TypedAbstraction, ProjectionError>) {
        match term {
            Expression::TypedAbstraction(t) => Ok(*t),
            _ => Err(ProjectionError::NotATypedAbstraction),
        }
    }
}

impl vstd::std_specs::convert::TryFromSpecImpl<Expression> for TypedAbstraction {
    open spec fn obeys_try_from_spec() -> bool {
        true
    }

    open spec fn try_from_spec(term: Expression) -> Result<TypedAbstraction, ProjectionError> {
        match term {
            Expression::TypedAbstraction(t) => Ok(*t),
            _ => Err(ProjectionError::NotATypedAbstraction),
        }
    }
}

impl TryFrom<Expression> for Application {
    type Error = ProjectionError;

    fn try_from(term: Expression) -> (r: Result<Application, ProjectionError>) {
        match term {
            Expression::Application(a) => Ok(*a),
            _ => Err(ProjectionError::NotAnApplication),
        }
    }
}

impl vstd::std_specs::convert::TryFromSpecImpl<Expression> for Application {
    open spec fn obeys_try_from_spec() -> bool {
        true
    }

    open spec fn try_from_spec(term: Expression) -> Result<Application, ProjectionError> {
        match term {
            Expression::Application(a) => Ok(*a),
            _ => Err(ProjectionError::NotAnApplication),
        }
    }
}

} // verus!
