use f_prime::expression::buffer::PositionedBuffer;
use f_prime::expression::Expression;
use f_prime::traverse::de_bruijn::convert::DeBruijnConverter;
use f_prime::traverse::pretty_print::ExpressionPrettyPrinter;

fn parse_expression(input: &str) -> Expression {
    let input = PositionedBuffer::new(input);
    let (expression, remaining) = Expression::parse(input).unwrap();
    assert!(remaining.buffer.is_empty());
    expression
}

#[test]
fn test_pretty_print_named() {
    let mut expression = parse_expression("(λx.λy.λz. w x y z)");
    DeBruijnConverter::convert(&mut expression);
    let pretty = ExpressionPrettyPrinter::format_named(&mut expression);
    assert_eq!(pretty, "λx. λy. λz. w x y z");
}

#[test]
fn test_pretty_print_nameless() {
    let mut expression = parse_expression("(λx.λy.λz. w x y z)");
    DeBruijnConverter::convert(&mut expression);
    let pretty = ExpressionPrettyPrinter::format_nameless_locals(&mut expression);
    assert_eq!(pretty, "λ λ λ w 3 2 1");
}

#[test]
fn test_pretty_print_indexed() {
    let mut expression = parse_expression("(λx.λy.λz. w x y z)");
    DeBruijnConverter::convert(&mut expression);
    let pretty = ExpressionPrettyPrinter::format_indexed(&mut expression);
    assert_eq!(pretty, "λ λ λ 4 3 2 1");
}

#[test]
fn test_associativity() {
    let mut expression = parse_expression("λx y z.x z (y z)");
    DeBruijnConverter::convert(&mut expression);
    let pretty = ExpressionPrettyPrinter::format_indexed(&mut expression);
    assert_eq!(pretty, "λ λ λ 3 1 (2 1)");
}

#[test]
fn pretty_print_test_associativity() {
    let mut expression = parse_expression("λx y z.x z (y z)");
    DeBruijnConverter::convert(&mut expression);
    let pretty = ExpressionPrettyPrinter::format_indexed(&mut expression);
    assert_eq!(pretty, "λ λ λ 3 1 (2 1)");
}

#[test]
fn pretty_print_test_typed_abstraction() {
    let mut expression = parse_expression("λx:T,y:U.x y z");
    DeBruijnConverter::convert(&mut expression);
    let pretty = ExpressionPrettyPrinter::format_named(&mut expression);
    assert_eq!(pretty, "λx:T. λy:U. x y z");
}

#[test]
fn test_pretty_print_de_bruin() {
    let mut term = parse_expression("(λx.λy.λz. w x y z)");
    DeBruijnConverter::convert(&mut term);
    assert_eq!(
        ExpressionPrettyPrinter::format_nameless_locals(&mut term),
        "λ λ λ w 3 2 1"
    );
}

#[test]
fn test_pretty_print_symbolic() {
    let term = parse_expression("(λx.λy.λz. w x y z)");
    assert_eq!(
        ExpressionPrettyPrinter::format_named(&term),
        "λx. λy. λz. w x y z"
    );
}
