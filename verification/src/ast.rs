//! The slice of a parsed syntax tree that the detector inspects: a
//! binary comparison node whose left operand may be a chain of unary
//! expressions. Every shape the detector does not care about collapses
//! into a single "other" variant, so the model is a small closed sum
//! type with an explicit no-match arm.

use crate::operators::{BinaryOperator, UnaryOperator};
use vstd::prelude::*;

verus! {

/// A source byte range, used for diagnostic locations.
#[derive(Debug, Clone, Copy, PartialEq, Eq, Structural)]
pub struct Span {
    /// Byte offset of the first byte of the range.
    pub start: u32,
    /// Byte offset one past the last byte of the range.
    pub end: u32,
}

impl Span {
    /// Builds the byte range from `start` to `end`.
    pub fn new(start: u32, end: u32) -> (r: Span)
        ensures
            r.start == start,
            r.end == end,
    {
        Span { start, end }
    }
}

/// An operand expression, reduced to the shapes the detector
/// distinguishes: a unary expression wrapping an argument, or anything
/// else.
#[derive(Debug, PartialEq, Eq)]
pub enum Expression {
    /// A unary expression, such as a logical negation.
    Unary(UnaryExpression),
    /// Any other expression: an identifier, a call, a literal, ...
    Other,
}

/// A unary expression node: an operator applied to one argument.
#[derive(Debug, PartialEq, Eq)]
pub struct UnaryExpression {
    /// The unary operator tag.
    pub operator: UnaryOperator,
    /// The sub-expression the operator applies to.
    pub argument: Box<Expression>,
}

/// A binary comparison node: the input of one detector invocation.
#[derive(Debug, PartialEq, Eq)]
pub struct BinaryExpression {
    /// The byte range of the whole comparison expression.
    pub span: Span,
    /// The comparison operator.
    pub operator: BinaryOperator,
    /// The left operand.
    pub left: Expression,
    /// The right operand.
    pub right: Expression,
}

/// Whether an expression is a logical negation: a unary expression
/// whose operator is the logical not.
pub open spec fn is_logical_not(e: Expression) -> bool {
    e matches Expression::Unary(u) && u.operator == UnaryOperator::LogicalNot
}

/// Whether an expression is exactly one level of logical negation: a
/// logical not whose argument is not itself a logical not. A double
/// negation (`!!foo`) is deliberate boolean coercion, and any deeper
/// chain (`!!!foo`) starts with a double negation too, so neither is a
/// single negation.
pub open spec fn is_single_logical_not(e: Expression) -> bool {
    e matches Expression::Unary(u) && u.operator == UnaryOperator::LogicalNot
        && !is_logical_not(*u.argument)
}

} // verus!
