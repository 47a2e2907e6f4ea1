//! The negation-in-equality-check detector: decides whether a binary
//! comparison node negates its left operand where the whole comparison
//! was probably meant to be negated, and on a match computes the
//! inverse operator to suggest.

use crate::ast::{is_logical_not, is_single_logical_not, BinaryExpression, Expression};
use crate::diagnostic::{
    no_negation_in_equality_check_diagnostic, spec_help_text, spec_message_text, Diagnostic,
    Severity,
};
use crate::operators::{spec_equality_inverse, spec_is_equality, UnaryOperator};
use vstd::prelude::*;

verus! {

/// Whether a binary comparison node matches the anti-pattern: its left
/// operand is exactly one level of logical negation, and its operator
/// is in the equality family.
pub open spec fn flags(node: BinaryExpression) -> bool {
    is_single_logical_not(node.left) && spec_is_equality(node.operator)
}

/// What one detector invocation on `node` may return: a diagnostic
/// exactly when the node matches the anti-pattern, and then one whose
/// span is the node's, whose help names the inverse operator, and whose
/// severity is a warning.
pub open spec fn check_result(node: BinaryExpression, r: Option<Diagnostic>) -> bool {
    &&& r is Some <==> flags(node)
    &&& r matches Some(d) ==> {
        &&& d.span == node.span
        &&& d.message@ == spec_message_text()
        &&& spec_equality_inverse(node.operator) matches Some(inv) && d.help@
            == spec_help_text(inv)
        &&& d.severity == Severity::Warning
    }
}

/// Disallows negated expressions on the left of (in)equality checks.
///
/// A negated expression on the left of an (in)equality check is likely
/// a mistake from trying to negate the whole condition: `!foo === bar`
/// compares the boolean `!foo` with `bar`, where `foo !== bar` or
/// `!(foo === bar)` was probably meant.
#[derive(Debug, Default, Clone)]
pub struct NoNegationInEqualityCheck;

impl NoNegationInEqualityCheck {
    /// Inspects one binary comparison node and returns the diagnostic
    /// to report, or `None` when the node does not match the
    /// anti-pattern. The node is only read; no state is retained
    /// between invocations.
    pub fn check(&self, node: &BinaryExpression) -> (r: Option<Diagnostic>)
        ensures
            check_result(*node, r),
    {
        let left_unary = match &node.left {
            Expression::Unary(u) => u,
            Expression::Other => {
                return None;
            },
        };

        if left_unary.operator != UnaryOperator::LogicalNot {
            return None;
        }

        if let Expression::Unary(nested_unary) = &*left_unary.argument {
            if nested_unary.operator == UnaryOperator::LogicalNot {
                return None;
            }
        }

        if !node.operator.is_equality() {
            return None;
        }

        let suggested_operator = match node.operator.equality_inverse_operator() {
            Some(op) => op,
            None => {
                return None;
            },
        };

        Some(no_negation_in_equality_check_diagnostic(node.span, suggested_operator))
    }
}

/// A node whose left operand is not a logical negation never matches,
/// whatever its operator.
pub proof fn lemma_unnegated_left_never_flagged(node: BinaryExpression)
    requires
        !is_logical_not(node.left),
    ensures
        !flags(node),
{
}

/// A node whose left operand is a logical negation of another logical
/// negation never matches: a double negation is deliberate boolean
/// coercion, and any deeper chain begins with one.
pub proof fn lemma_double_negation_never_flagged(node: BinaryExpression)
    requires
        node.left matches Expression::Unary(u) && u.operator == UnaryOperator::LogicalNot
            && is_logical_not(*u.argument),
    ensures
        !flags(node),
{
}

/// A node whose operator is outside the equality family never matches,
/// whatever the shape of its left operand.
pub proof fn lemma_non_equality_operator_never_flagged(node: BinaryExpression)
    requires
        !spec_is_equality(node.operator),
    ensures
        !flags(node),
{
}

/// A node whose left operand is a single logical negation and whose
/// operator is in the equality family always matches, and the
/// suggested operator named by the diagnostic's help text is the exact
/// logical inverse of the node's operator.
pub proof fn lemma_single_negation_flagged(node: BinaryExpression, r: Option<Diagnostic>)
    requires
        is_single_logical_not(node.left),
        spec_is_equality(node.operator),
        check_result(node, r),
    ensures
        r matches Some(d) && spec_equality_inverse(node.operator) matches Some(inv)
            && d.help@ == spec_help_text(inv),
{
}

/// The detector is deterministic: any two results of checking the same
/// immutable node agree, in whether a diagnostic is emitted and in
/// every field of the diagnostic.
pub proof fn lemma_check_deterministic(
    node: BinaryExpression,
    r1: Option<Diagnostic>,
    r2: Option<Diagnostic>,
)
    requires
        check_result(node, r1),
        check_result(node, r2),
    ensures
        r1 is Some <==> r2 is Some,
        r1 matches Some(d1) ==> r2 matches Some(d2) && d1.span == d2.span && d1.message@
            == d2.message@ && d1.help@ == d2.help@ && d1.severity == d2.severity,
{
}

} // verus!
