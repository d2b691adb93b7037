use f_prime::expression::abstraction::{Abstraction, TypedAbstraction};
use f_prime::expression::application::Application;
use f_prime::expression::buffer::PositionedBuffer;
use f_prime::expression::constant::ConstantParser;
use f_prime::expression::literal::LiteralParser;
use f_prime::expression::variable::{Variable, VariableParser};
use f_prime::expression::Expression;

fn parse_expression(input: &str) -> Expression {
    let input = PositionedBuffer::new(input);
    let (expression, remaining) = Expression::parse(input).unwrap();
    assert!(
        remaining.buffer.is_empty(),
        "Expression was not fully parsed. Remaining: {}",
        remaining.buffer
    );
    expression
}

#[test]
fn expression_test_variable() {
    let input = PositionedBuffer::new("x");
    let (expression, remaining) = Expression::parse(input).unwrap();
    assert!(remaining.buffer.is_empty());
    assert!(matches!(expression, Expression::Variable(_)));
    let variable = Variable::try_from(expression).unwrap();
    assert_eq!(variable.symbol, "x");
}

#[test]
fn expression_test_abstraction() {
    let input = PositionedBuffer::new("λx. y x");
    let (expression, remaining) = Expression::parse(input).unwrap();
    assert!(remaining.buffer.is_empty());
    assert!(matches!(expression, Expression::Abstraction(_)));
    let abstraction = Abstraction::try_from(expression).unwrap();
    assert_eq!(abstraction.parameter.symbol, "x");
    assert!(matches!(abstraction.body, Expression::Application(_)));
}

#[test]
fn expression_test_abstraction_nested() {
    let input = PositionedBuffer::new("λx y.x y z");
    let (expression, remaining) = Expression::parse(input).unwrap();
    assert!(remaining.buffer.is_empty());
    assert!(matches!(expression, Expression::Abstraction(_)));
    let abstraction = Abstraction::try_from(expression).unwrap();
    assert!(matches!(abstraction.body, Expression::Abstraction(_)));
}

#[test]
fn test_typed_abstraction() {
    let input = PositionedBuffer::new("λx:T.y x");
    let (expression, remaining) = Expression::parse(input).unwrap();
    assert!(remaining.buffer.is_empty());
    assert!(matches!(expression, Expression::TypedAbstraction(_)));
    let abstraction = TypedAbstraction::try_from(expression).unwrap();
    assert_eq!(abstraction.parameter.symbol, "x");
    assert!(matches!(abstraction.parameter_type, Expression::Variable(_)));
    assert!(matches!(abstraction.body, Expression::Application(_)));
}

#[test]
fn test_typed_abstraction_nested() {
    let input = PositionedBuffer::new("λx:T,y:U.x y z");
    let (expression, remaining) = Expression::parse(input).unwrap();
    assert!(remaining.buffer.is_empty());
    assert!(matches!(expression, Expression::TypedAbstraction(_)));
    let abstraction = TypedAbstraction::try_from(expression).unwrap();
    assert!(matches!(abstraction.body, Expression::TypedAbstraction(_)));
}

#[test]
fn expression_test_application() {
    let input = PositionedBuffer::new("(λx. x) (λx. x)");
    let (expression, remaining) = Expression::parse(input).unwrap();
    assert!(remaining.buffer.is_empty());
    assert!(matches!(expression, Expression::Application(_)));
    let application = Application::try_from(expression).unwrap();
    assert!(matches!(application.applicator, Expression::Abstraction(_)));
    assert!(matches!(application.argument, Expression::Abstraction(_)));
}

#[test]
fn expression_test_expression() {
    let input = PositionedBuffer::new("λx. a (λt. b x t (f (λu. a u t z) λs. w)) w y");
    let (expression, remaining) = Expression::parse(input).unwrap();
    assert!(remaining.buffer.is_empty());
    assert!(matches!(expression, Expression::Abstraction(_)));
}

#[test]
fn term_test_variable() {
    let expression = parse_expression("x");
    assert!(matches!(expression, Expression::Variable(_)));
    let variable = Variable::try_from(expression).unwrap();
    assert_eq!(variable.symbol, "x");
}

#[test]
fn term_test_abstraction() {
    let expression = parse_expression("λx. y x");
    assert!(matches!(expression, Expression::Abstraction(_)));
    let abstraction = Abstraction::try_from(expression).unwrap();
    assert_eq!(abstraction.parameter.symbol, "x");
    assert!(matches!(abstraction.body, Expression::Application(_)));
}

#[test]
fn term_test_abstraction_nested() {
    let expression = parse_expression("λx y.x y z");
    assert!(matches!(expression, Expression::Abstraction(_)));
    let abstraction = Abstraction::try_from(expression).unwrap();
    assert!(matches!(abstraction.body, Expression::Abstraction(_)));
}

#[test]
fn term_test_application() {
    let expression = parse_expression("(λx. x) (λx. x)");
    let application = Application::try_from(expression).unwrap();
    assert!(matches!(application.applicator, Expression::Abstraction(_)));
    assert!(matches!(application.argument, Expression::Abstraction(_)));
}

#[test]
fn test_application_associativity() {
    let expression = parse_expression("x y z");
    assert!(matches!(expression, Expression::Application(_)));
    let application = Application::try_from(expression).unwrap();
    assert!(matches!(application.applicator, Expression::Application(_)));
    assert!(matches!(application.argument, Expression::Variable(_)));
}

#[test]
fn term_test_expression() {
    let expression = parse_expression("λx. a (λt. b x t (f (λu. a u t z) λs. w)) w y");
    assert!(matches!(expression, Expression::Abstraction(_)));
}

#[test]
fn test_parser() {
    let input = PositionedBuffer::new("λx. a (λt. b x t (f (λu. a u t z) λs. w)) w y");
    let output = Expression::parse(input);
    assert!(output.unwrap().1.buffer.is_empty())
}

#[test]
fn test_multi_abstraction() {
    let input = PositionedBuffer::new("λx y.x y z");
    let output = Expression::parse(input);
    assert!(output.unwrap().1.buffer.is_empty())
}

#[test]
fn variable_test_variable() {
    let input = PositionedBuffer::new("x y");
    assert!(matches!(
        VariableParser.parse(input),
        Ok((variable, _)) if variable.symbol == "x",
    ));

    let input = PositionedBuffer::new("->");
    assert!(matches!(VariableParser.parse(input), Err(_)));
}

#[test]
fn test_literal() {
    let literal_parser = LiteralParser::new("hello");

    let input = PositionedBuffer::new("hello, world!");
    assert!(matches!(
        literal_parser.parse(input),
        Ok((output, remaining)) if output == "hello" && remaining.buffer == ", world!",
    ));

    let input = PositionedBuffer::new("goodbye, world!");
    assert!(matches!(literal_parser.parse(input), Err(_)));
}

#[test]
fn test_constant() {
    let constant_parser = ConstantParser::new(vec![String::from("fix"), String::from("top")]);

    let input = PositionedBuffer::new("fix");
    assert!(matches!(
        constant_parser.parse(input),
        Ok((constant, _)) if constant.symbol == "fix",
    ));

    let input = PositionedBuffer::new("top");
    assert!(matches!(
        constant_parser.parse(input),
        Ok((constant, _)) if constant.symbol == "top",
    ));

    let input = PositionedBuffer::new("else");
    assert!(matches!(constant_parser.parse(input), Err(_)));
}
