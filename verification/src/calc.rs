//! Operator classification for the four-function arithmetic evaluator.
//!
//! The evaluator accepts `+`, `-`, `/`, and any of `*`, `x`, `X` for
//! multiplication; every other character is an unsupported operator.
//! The floating-point arithmetic itself is performed by the caller; this
//! module decides which operation, if any, a character denotes.

use vstd::prelude::*;

verus! {

/// One of the four supported arithmetic operations.
#[derive(Clone, Copy, Debug, PartialEq, Eq, Structural)]
pub enum Operator {
    Addition,
    Subtraction,
    Division,
    Multiplication,
}

/// Maps an operator character to the operation it denotes, or `None` for an
/// unsupported operator.
pub fn parse_operator(operator: char) -> (r: Option<Operator>)
    ensures
        r == (match operator {
            '+' => Some(Operator::Addition),
            '-' => Some(Operator::Subtraction),
            '/' => Some(Operator::Division),
            '*' | 'x' | 'X' => Some(Operator::Multiplication),
            _ => None::<Operator>,
        }),
{
    match operator {
        '+' => Some(Operator::Addition),
        '-' => Some(Operator::Subtraction),
        '/' => Some(Operator::Division),
        '*' | 'x' | 'X' => Some(Operator::Multiplication),
        _ => None,
    }
}

} // verus!
