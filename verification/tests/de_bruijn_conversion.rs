use f_prime::expression::abstraction::Abstraction;
use f_prime::expression::application::Application;
use f_prime::expression::buffer::PositionedBuffer;
use f_prime::expression::variable::Variable;
use f_prime::expression::Expression;
use f_prime::traverse::de_bruijn::convert::DeBruijnConverter;
use f_prime::traverse::pretty_print::ExpressionPrettyPrinter;

fn parse_expression(input: &str) -> Expression {
    let input = PositionedBuffer::new(input);
    let (expression, remaining) = Expression::parse(input).unwrap();
    assert!(remaining.buffer.is_empty());
    expression
}

fn resolved_tree() -> Expression {
    Expression::from(Abstraction::new(
        Variable::new("x"),
        Expression::from(Abstraction::new(
            Variable::new("y"),
            Expression::from(Abstraction::new(
                Variable::new("z"),
                Expression::from(Application::new(
                    Expression::from(Application::new(
                        Expression::from(Application::new(
                            Expression::from(Variable {
                                symbol: String::from("w"),
                                index: 4,
                            }),
                            Expression::from(Variable {
                                symbol: String::from("x"),
                                index: 3,
                            }),
                        )),
                        Expression::from(Variable {
                            symbol: String::from("y"),
                            index: 2,
                        }),
                    )),
                    Expression::from(Variable {
                        symbol: String::from("z"),
                        index: 1,
                    }),
                )),
            )),
        )),
    ))
}

#[test]
fn test_de_bruijn() {
    let mut term = parse_expression("(λx.λy.λz. w x y z)");
    let should = resolved_tree();
    DeBruijnConverter::convert(&mut term);
    assert_eq!(term, should);
}

#[test]
fn de_bruijn_test_de_bruijn() {
    let mut term = parse_expression("(λx.λy.λz. w x y z)");
    let should = resolved_tree();
    DeBruijnConverter::convert(&mut term);
    assert_eq!(term, should);
}

#[test]
fn test_free_variables() {
    let mut expression = parse_expression("a b c");
    DeBruijnConverter::convert(&mut expression);
    let pretty = ExpressionPrettyPrinter::format_indexed(&mut expression);
    assert_eq!(pretty, "1 2 3");
}

#[test]
fn test_free_variables_nested() {
    let mut expression = parse_expression("b (λx.λy.b)");
    DeBruijnConverter::convert(&mut expression);
    let pretty = ExpressionPrettyPrinter::format_indexed(&mut expression);
    assert_eq!(pretty, "1 (λ λ 3)");
}

#[test]
fn test_scopes() {
    let mut expression = parse_expression("(λx.λy.λz. w x y z)");
    DeBruijnConverter::convert(&mut expression);
    let pretty = ExpressionPrettyPrinter::format_indexed(&mut expression);
    assert_eq!(pretty, "λ λ λ 4 3 2 1");
}

#[test]
fn test_scopes_nested() {
    let mut expression = parse_expression("(λw. (λx. w x y) (λx. x))");
    DeBruijnConverter::convert(&mut expression);
    let pretty = ExpressionPrettyPrinter::format_indexed(&mut expression);
    assert_eq!(pretty, "λ (λ 2 1 3) (λ 1)");
}
