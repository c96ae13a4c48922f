use combiner::calc::parse_operator;
use combiner::calc::Operator;

#[test]
fn parse_operator_supported_operators() {
    assert_eq!(parse_operator('+'), Some(Operator::Addition));
    assert_eq!(parse_operator('-'), Some(Operator::Subtraction));
    assert_eq!(parse_operator('/'), Some(Operator::Division));
    assert_eq!(parse_operator('*'), Some(Operator::Multiplication));
    assert_eq!(parse_operator('x'), Some(Operator::Multiplication));
    assert_eq!(parse_operator('X'), Some(Operator::Multiplication));
}

#[test]
fn parse_operator_rejects_unsupported_operator() {
    assert_eq!(parse_operator('?'), None);
    assert_eq!(parse_operator('%'), None);
}
