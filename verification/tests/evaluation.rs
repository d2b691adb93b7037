use f_prime::eval::by_value::{CallByValueEvaluator, FullBetaEvaluator};
use f_prime::eval::{BetaReduction, TracingBetaReduction};
use f_prime::expression::buffer::PositionedBuffer;
use f_prime::expression::Expression;
use f_prime::traverse::de_bruijn::convert::DeBruijnConverter;
use f_prime::traverse::pretty_print::ExpressionPrettyPrinter;

fn parse_expression(input: &str) -> Expression {
    let input = PositionedBuffer::new(input);
    let (expression, remaining) = Expression::parse(input).unwrap();
    assert!(remaining.buffer.is_empty());
    expression
}

#[test]
fn test_call_by_value() {
    let mut term = parse_expression("(λx. x) (λx. y)");
    DeBruijnConverter::convert(&mut term);
    let result = CallByValueEvaluator::reduce(&mut term);
    assert!(result);
    let format = ExpressionPrettyPrinter::format(&mut term);
    assert_eq!(format, "λx. y");
}

#[test]
fn test_full_beta() {
    let mut term = parse_expression("(λn.λs.λz.s (n s z)) (λs.λz.z)");
    DeBruijnConverter::convert(&mut term);
    let result = FullBetaEvaluator::reduce(&mut term);
    assert!(result);
    let format = ExpressionPrettyPrinter::format(&mut term);
    assert_eq!(format, "λs. λz. s z");
}

#[test]
fn by_value_test_full_beta() {
    let mut term = parse_expression("(λn.λs.λz.s (n s z)) (λs.λz.z)");
    DeBruijnConverter::convert(&mut term);
    let result = FullBetaEvaluator::reduce(&mut term);
    assert!(result);
    let format = ExpressionPrettyPrinter::format_named(&mut term);
    assert_eq!(format, "λs. λz. s z");
}

#[test]
fn full_test_full_beta() {
    let mut term = parse_expression("(λn.λs.λz.s (n s z)) (λs.λz.z)");
    DeBruijnConverter::convert(&mut term);
    let result = FullBetaEvaluator::reduce(&mut term);
    assert!(result);
    let format = ExpressionPrettyPrinter::format_named(&mut term);
    assert_eq!(format, "λs. λz. s z");
}

#[test]
fn trace_records_each_step() {
    let mut term = parse_expression("(λn.λs.λz.s (n s z)) (λs.λz.z)");
    DeBruijnConverter::convert(&mut term);
    let steps = FullBetaEvaluator::trace(&mut term);
    assert!(!steps.is_empty());
    assert_eq!(steps.last().unwrap(), "λs. λz. s z");
    assert_eq!(ExpressionPrettyPrinter::format_named(&term), "λs. λz. s z");
}

#[test]
fn trace_of_a_normal_form_is_empty() {
    let mut term = parse_expression("λx. x");
    DeBruijnConverter::convert(&mut term);
    let steps = FullBetaEvaluator::trace(&mut term);
    assert!(steps.is_empty());
}

#[test]
fn trace_once_reports_the_new_form() {
    let mut term = parse_expression("(λx. x) (λx. y)");
    DeBruijnConverter::convert(&mut term);
    let snapshot = CallByValueEvaluator::trace_once(&mut term).unwrap();
    assert_eq!(snapshot, "λx. y");
    assert!(CallByValueEvaluator::trace_once(&mut term).is_none());
}

#[test]
fn divergent_term_steps_to_itself() {
    let mut term = parse_expression("(λx. x x) (λx. x x)");
    DeBruijnConverter::convert(&mut term);
    let before = ExpressionPrettyPrinter::format_indexed(&term);
    let reduced = CallByValueEvaluator::evaluate(&mut term);
    assert!(reduced);
    let after = ExpressionPrettyPrinter::format_indexed(&term);
    assert_eq!(before, after);
}

#[test]
fn divergent_term_keeps_tracing() {
    let mut term = parse_expression("(λx. x x) (λx. x x)");
    DeBruijnConverter::convert(&mut term);
    let mut count = 0;
    while count < 5 {
        let snapshot = CallByValueEvaluator::trace_once(&mut term).unwrap();
        assert_eq!(snapshot, "(λx. x x) (λx. x x)");
        count += 1;
    }
}

#[test]
fn stuck_term_does_not_reduce() {
    let mut term = parse_expression("x y");
    DeBruijnConverter::convert(&mut term);
    let reduced = CallByValueEvaluator::reduce(&mut term);
    assert!(!reduced);
    assert_eq!(ExpressionPrettyPrinter::format_named(&term), "x y");
}

#[test]
fn strategies_agree_on_terminating_inputs() {
    let inputs = vec![
        "(λx. x) (λx. y)",
        "(λx. x) ((λy. y) (λz. z))",
        "(λx. λy. x) (λu. u) (λv. v)",
    ];
    for input in inputs {
        let mut by_value = parse_expression(input);
        DeBruijnConverter::convert(&mut by_value);
        CallByValueEvaluator::reduce(&mut by_value);

        let mut normalized = parse_expression(input);
        DeBruijnConverter::convert(&mut normalized);
        FullBetaEvaluator::reduce(&mut normalized);

        assert_eq!(
            ExpressionPrettyPrinter::format_named(&by_value),
            ExpressionPrettyPrinter::format_named(&normalized),
        );
    }
}
