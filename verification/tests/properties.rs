use f_prime::expression::abstraction::{Abstraction, TypedAbstraction};
use f_prime::expression::application::Application;
use f_prime::expression::buffer::PositionedBuffer;
use f_prime::expression::term_helpers::{replace_term, try_replace_term};
use f_prime::expression::variable::Variable;
use f_prime::expression::{Expression, ProjectionError};
use f_prime::term::{SimpleType, SimplyTypedLambdaTerm, Term};
use f_prime::traverse::de_bruijn::convert::DeBruijnConverter;
use f_prime::traverse::de_bruijn::shift::DeBruijnShift;
use f_prime::traverse::pretty_print::ExpressionPrettyPrinter;
use f_prime::typecheck::SimplyTypedLambdaTypeChecker;

fn parse_expression(input: &str) -> Expression {
    let input = PositionedBuffer::new(input);
    let (expression, remaining) = Expression::parse(input).unwrap();
    assert!(remaining.buffer.is_empty());
    expression
}

#[test]
fn empty_input_fails_to_parse() {
    let input = PositionedBuffer::new("");
    assert!(matches!(Expression::parse(input), Err(_)));
    let input = PositionedBuffer::new("   ");
    assert!(matches!(Expression::parse(input), Err(_)));
}

#[test]
fn single_free_variable_prints_as_one() {
    let mut expression = parse_expression("a");
    DeBruijnConverter::convert(&mut expression);
    assert_eq!(ExpressionPrettyPrinter::format_indexed(&expression), "1");
}

#[test]
fn named_print_reparses_to_the_same_tree() {
    let inputs = vec![
        "λx. x",
        "λx y z. x z (y z)",
        "(λx. x x) (λx. x x)",
        "b (λx.λy. b)",
        "λx. a (λt. b x t (f (λu. a u t z) λs. w)) w y",
        "x y z",
    ];
    for input in inputs {
        let term = parse_expression(input);
        let printed = ExpressionPrettyPrinter::format_named(&term);
        let reparsed = parse_expression(&printed);
        assert_eq!(term, reparsed);
    }
}

#[test]
fn resolution_is_idempotent() {
    let inputs = vec!["λx. x", "b (λx.λy. b)", "(λw. (λx. w x y) (λx. x))", "a b c"];
    for input in inputs {
        let mut once = parse_expression(input);
        DeBruijnConverter::convert(&mut once);
        let mut twice = parse_expression(input);
        DeBruijnConverter::convert(&mut twice);
        DeBruijnConverter::convert(&mut twice);
        assert_eq!(once, twice);
    }
}

#[test]
fn indexed_print_ignores_symbols() {
    let mut left = parse_expression("λx y. x (y w)");
    let mut right = parse_expression("λa b. a (b q)");
    DeBruijnConverter::convert(&mut left);
    DeBruijnConverter::convert(&mut right);
    assert_eq!(
        ExpressionPrettyPrinter::format_indexed(&left),
        ExpressionPrettyPrinter::format_indexed(&right),
    );
}

#[test]
fn large_indices_print_in_decimal() {
    let expression = Expression::from(Variable {
        symbol: String::from("a"),
        index: 12,
    });
    assert_eq!(ExpressionPrettyPrinter::format_indexed(&expression), "12");
    let expression = Expression::from(Variable {
        symbol: String::from("a"),
        index: 105,
    });
    assert_eq!(ExpressionPrettyPrinter::format_indexed(&expression), "105");
}

#[test]
fn negative_shift_saturates_at_zero() {
    let mut expression = parse_expression("a");
    DeBruijnConverter::convert(&mut expression);
    assert_eq!(ExpressionPrettyPrinter::format_indexed(&expression), "1");
    DeBruijnShift::shift(-2, &mut expression);
    assert_eq!(ExpressionPrettyPrinter::format_indexed(&expression), "0");
}

#[test]
fn shift_up_then_down_restores_the_term() {
    let mut expression = parse_expression("(λx.λy. x (y w))");
    DeBruijnConverter::convert(&mut expression);
    let before = ExpressionPrettyPrinter::format_indexed(&expression);
    DeBruijnShift::shift(3, &mut expression);
    DeBruijnShift::shift(-3, &mut expression);
    assert_eq!(ExpressionPrettyPrinter::format_indexed(&expression), before);
}

#[test]
fn projections_report_distinct_errors() {
    let variable = parse_expression("x");
    assert_eq!(
        Abstraction::try_from(variable),
        Err(ProjectionError::NotAnAbstraction)
    );
    let abstraction = parse_expression("λx. x");
    assert_eq!(
        Variable::try_from(abstraction),
        Err(ProjectionError::NotAVariable)
    );
    let variable = parse_expression("x");
    assert_eq!(
        TypedAbstraction::try_from(variable),
        Err(ProjectionError::NotATypedAbstraction)
    );
    let abstraction = parse_expression("λx. x");
    assert_eq!(
        Application::try_from(abstraction),
        Err(ProjectionError::NotAnApplication)
    );
}

#[test]
fn application_printing_keeps_association() {
    let left_nested = parse_expression("x y z");
    assert_eq!(ExpressionPrettyPrinter::format_named(&left_nested), "x y z");
    let right_nested = parse_expression("x (y z)");
    assert_eq!(ExpressionPrettyPrinter::format_named(&right_nested), "x (y z)");
}

#[test]
fn is_value_holds_of_abstractions_only() {
    assert!(parse_expression("λx. x").is_value());
    assert!(parse_expression("λx:T. x").is_value());
    assert!(!parse_expression("x").is_value());
    assert!(!parse_expression("x y").is_value());
}

#[test]
fn simply_typed_wrappers_validate_their_shape() {
    let mut term = parse_expression("λx:T. x y");
    DeBruijnConverter::convert(&mut term);
    let term = SimplyTypedLambdaTerm::try_from(term).unwrap();
    assert!(term.validate());

    let untyped = parse_expression("λx. x");
    assert!(SimplyTypedLambdaTerm::try_from(untyped).is_err());

    let mut simple = parse_expression("T U");
    DeBruijnConverter::convert(&mut simple);
    let simple = SimpleType::try_from(simple).unwrap();
    assert!(simple.validate());

    let not_a_type = parse_expression("λx. x");
    assert!(SimpleType::try_from(not_a_type).is_err());
}

#[test]
fn replace_term_applies_the_function() {
    let mut term = parse_expression("x");
    replace_term(&mut term, |t| {
        Expression::from(Abstraction::new(Variable::new("y"), t))
    });
    assert_eq!(ExpressionPrettyPrinter::format_named(&term), "λy. x");

    let replaced = try_replace_term(&mut term, Err);
    assert!(!replaced);
    assert_eq!(ExpressionPrettyPrinter::format_named(&term), "λy. x");

    let replaced = try_replace_term(&mut term, |t| match t {
        Expression::Abstraction(a) => Ok(a.body),
        other => Err(other),
    });
    assert!(replaced);
    assert_eq!(ExpressionPrettyPrinter::format_named(&term), "x");
}

#[test]
fn type_checker_matches_annotations() {
    let term = parse_expression("λx:T. x");
    let matching = parse_expression("T");
    let other = parse_expression("U");
    assert!(SimplyTypedLambdaTypeChecker::check_expression(&term, &matching));
    assert!(!SimplyTypedLambdaTypeChecker::check_expression(&term, &other));

    let unbound = parse_expression("λx:T. y");
    assert!(!SimplyTypedLambdaTypeChecker::check_expression(&unbound, &matching));
}
