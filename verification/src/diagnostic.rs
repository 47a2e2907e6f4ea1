//! The diagnostic value the detector emits on a match: a source
//! location, a fixed message naming the anti-pattern, a help text
//! naming the suggested replacement operator, and a severity.

use crate::ast::Span;
use crate::operators::{spec_operator_str, BinaryOperator};
use vstd::prelude::*;
use vstd::string::StringExecFns;

verus! {

/// How serious a reported finding is.
#[derive(Debug, Clone, Copy, PartialEq, Eq, Structural)]
pub enum Severity {
    /// A hint, below a warning.
    Advice,
    /// A likely mistake that does not make the program invalid.
    Warning,
    /// An outright error.
    Error,
}

/// A reported finding: where it is, what it is, and what to do instead.
#[derive(Debug, Clone, PartialEq, Eq)]
pub struct Diagnostic {
    /// The byte range of the offending expression.
    pub span: Span,
    /// A fixed human-readable text identifying the anti-pattern.
    pub message: String,
    /// A text naming the concrete suggested replacement operator.
    pub help: String,
    /// How serious the finding is.
    pub severity: Severity,
}

/// The message text of the negation-in-equality-check diagnostic.
pub open spec fn spec_message_text() -> Seq<char> {
    "Negated expression is not allowed in equality check."@
}

/// The help text of the negation-in-equality-check diagnostic, naming
/// the suggested replacement operator.
pub open spec fn spec_help_text(suggested_operator: BinaryOperator) -> Seq<char> {
    "Remove the negation operator and use '"@ + spec_operator_str(suggested_operator)
        + "' instead."@
}

/// Builds the diagnostic for a negated left operand of an equality
/// check at `span`, suggesting `suggested_operator` as the
/// replacement.
pub fn no_negation_in_equality_check_diagnostic(
    span: Span,
    suggested_operator: BinaryOperator,
) -> (r: Diagnostic)
    ensures
        r.span == span,
        r.message@ == spec_message_text(),
        r.help@ == spec_help_text(suggested_operator),
        r.severity == Severity::Warning,
{
    let message = String::from_str("Negated expression is not allowed in equality check.");
    let help = String::from_str("Remove the negation operator and use '").concat(
        suggested_operator.as_str(),
    ).concat("' instead.");
    Diagnostic { span, message, help, severity: Severity::Warning }
}

} // verus!
