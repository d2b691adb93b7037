use f_prime::expression::buffer::PositionedBuffer;
use f_prime::expression::variable::Variable;
use f_prime::expression::Expression;
use f_prime::traverse::de_bruijn::convert::DeBruijnConverter;
use f_prime::traverse::de_bruijn::shift::DeBruijnShift;
use f_prime::traverse::de_bruijn::substitution::DeBruijnSubstitution;
use f_prime::traverse::pretty_print::ExpressionPrettyPrinter;

fn parse_expression(input: &str) -> Expression {
    let input = PositionedBuffer::new(input);
    let (expression, remaining) = Expression::parse(input).unwrap();
    assert!(remaining.buffer.is_empty());
    expression
}

#[test]
fn test_shift() {
    let mut expression = parse_expression("(λx.λy. x (y w))");
    DeBruijnConverter::convert(&mut expression);
    DeBruijnShift::shift(2, &mut expression);
    let pretty = ExpressionPrettyPrinter::format_indexed(&mut expression);
    assert_eq!(pretty, "λ λ 2 (1 5)");
}

#[test]
fn test_shift_nested() {
    let mut expression = parse_expression("(λx. x w (λy. y x w))");
    DeBruijnConverter::convert(&mut expression);
    DeBruijnShift::shift(2, &mut expression);
    let pretty = ExpressionPrettyPrinter::format_indexed(&mut expression);
    assert_eq!(pretty, "λ 1 4 (λ 1 2 5)");
}

#[test]
fn test_substitute() {
    let mut expression = parse_expression("(b (λx.λy.b))");
    DeBruijnConverter::convert(&mut expression);

    let replacement = Expression::from(Variable::from(String::from("a")));
    DeBruijnSubstitution::substitute(1, replacement, &mut expression);
    let pretty = ExpressionPrettyPrinter::format_named(&mut expression);
    assert_eq!(pretty, "a (λx. λy. a)");
}

#[test]
fn test_substitute_2() {
    let mut expression = parse_expression("b (λx.b)");
    DeBruijnConverter::convert(&mut expression);

    let mut replacement = parse_expression("a (λz.a)");
    DeBruijnConverter::convert(&mut replacement);

    DeBruijnSubstitution::substitute(1, replacement, &mut expression);
    let pretty = ExpressionPrettyPrinter::format_nameless_locals(&mut expression);
    assert_eq!(pretty, "a (λ a) (λ a (λ a))");
}
