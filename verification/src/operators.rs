//! The closed sets of binary and unary operators that a comparison node
//! can carry, and the equality-family classification and inverse mapping
//! that the detector relies on.

use vstd::prelude::*;

verus! {

/// A binary expression operator.
#[derive(Debug, Clone, Copy, PartialEq, Eq, Structural)]
pub enum BinaryOperator {
    /// `==`
    Equality,
    /// `!=`
    Inequality,
    /// `===`
    StrictEquality,
    /// `!==`
    StrictInequality,
    /// `<`
    LessThan,
    /// `<=`
    LessEqualThan,
    /// `>`
    GreaterThan,
    /// `>=`
    GreaterEqualThan,
    /// `<<`
    ShiftLeft,
    /// `>>`
    ShiftRight,
    /// `>>>`
    ShiftRightZeroFill,
    /// `+`
    Addition,
    /// `-`
    Subtraction,
    /// `*`
    Multiplication,
    /// `/`
    Division,
    /// `%`
    Remainder,
    /// `|`
    BitwiseOR,
    /// `^`
    BitwiseXOR,
    /// `&`
    BitwiseAnd,
    /// `in`
    In,
    /// `instanceof`
    Instanceof,
    /// `**`
    Exponential,
}

/// A unary expression operator.
#[derive(Debug, Clone, Copy, PartialEq, Eq, Structural)]
pub enum UnaryOperator {
    /// `-`
    UnaryNegation,
    /// `+`
    UnaryPlus,
    /// `!`
    LogicalNot,
    /// `~`
    BitwiseNot,
    /// `typeof`
    Typeof,
    /// `void`
    Void,
    /// `delete`
    Delete,
}

/// The equality family: the four operators expressing "equal" or
/// "not equal" under either strict or loose comparison semantics.
pub open spec fn spec_is_equality(op: BinaryOperator) -> bool {
    ||| op == BinaryOperator::Equality
    ||| op == BinaryOperator::Inequality
    ||| op == BinaryOperator::StrictEquality
    ||| op == BinaryOperator::StrictInequality
}

/// The logical complement of an equality-family operator: equal and
/// not-equal swap, within the same strictness. Operators outside the
/// family have no inverse.
pub open spec fn spec_equality_inverse(op: BinaryOperator) -> Option<BinaryOperator> {
    match op {
        BinaryOperator::Equality => Some(BinaryOperator::Inequality),
        BinaryOperator::Inequality => Some(BinaryOperator::Equality),
        BinaryOperator::StrictEquality => Some(BinaryOperator::StrictInequality),
        BinaryOperator::StrictInequality => Some(BinaryOperator::StrictEquality),
        _ => None,
    }
}

/// The source text of an operator, as it appears in a program.
pub open spec fn spec_operator_str(op: BinaryOperator) -> Seq<char> {
    match op {
        BinaryOperator::Equality => "=="@,
        BinaryOperator::Inequality => "!="@,
        BinaryOperator::StrictEquality => "==="@,
        BinaryOperator::StrictInequality => "!=="@,
        BinaryOperator::LessThan => "<"@,
        BinaryOperator::LessEqualThan => "<="@,
        BinaryOperator::GreaterThan => ">"@,
        BinaryOperator::GreaterEqualThan => ">="@,
        BinaryOperator::ShiftLeft => "<<"@,
        BinaryOperator::ShiftRight => ">>"@,
        BinaryOperator::ShiftRightZeroFill => ">>>"@,
        BinaryOperator::Addition => "+"@,
        BinaryOperator::Subtraction => "-"@,
        BinaryOperator::Multiplication => "*"@,
        BinaryOperator::Division => "/"@,
        BinaryOperator::Remainder => "%"@,
        BinaryOperator::BitwiseOR => "|"@,
        BinaryOperator::BitwiseXOR => "^"@,
        BinaryOperator::BitwiseAnd => "&"@,
        BinaryOperator::In => "in"@,
        BinaryOperator::Instanceof => "instanceof"@,
        BinaryOperator::Exponential => "**"@,
    }
}

impl BinaryOperator {
    /// Whether this operator belongs to the equality family.
    pub fn is_equality(&self) -> (r: bool)
        ensures
            r == spec_is_equality(*self),
    {
        match self {
            BinaryOperator::Equality
            | BinaryOperator::Inequality
            | BinaryOperator::StrictEquality
            | BinaryOperator::StrictInequality => true,
            _ => false,
        }
    }

    /// The logical complement of this operator, where it is in the
    /// equality family; `None` otherwise.
    pub fn equality_inverse_operator(&self) -> (r: Option<BinaryOperator>)
        ensures
            r == spec_equality_inverse(*self),
    {
        match self {
            BinaryOperator::Equality => Some(BinaryOperator::Inequality),
            BinaryOperator::Inequality => Some(BinaryOperator::Equality),
            BinaryOperator::StrictEquality => Some(BinaryOperator::StrictInequality),
            BinaryOperator::StrictInequality => Some(BinaryOperator::StrictEquality),
            _ => None,
        }
    }

    /// The source text of this operator.
    pub fn as_str(&self) -> (r: &'static str)
        ensures
            r@ == spec_operator_str(*self),
    {
        match self {
            BinaryOperator::Equality => "==",
            BinaryOperator::Inequality => "!=",
            BinaryOperator::StrictEquality => "===",
            BinaryOperator::StrictInequality => "!==",
            BinaryOperator::LessThan => "<",
            BinaryOperator::LessEqualThan => "<=",
            BinaryOperator::GreaterThan => ">",
            BinaryOperator::GreaterEqualThan => ">=",
            BinaryOperator::ShiftLeft => "<<",
            BinaryOperator::ShiftRight => ">>",
            BinaryOperator::ShiftRightZeroFill => ">>>",
            BinaryOperator::Addition => "+",
            BinaryOperator::Subtraction => "-",
            BinaryOperator::Multiplication => "*",
            BinaryOperator::Division => "/",
            BinaryOperator::Remainder => "%",
            BinaryOperator::BitwiseOR => "|",
            BinaryOperator::BitwiseXOR => "^",
            BinaryOperator::BitwiseAnd => "&",
            BinaryOperator::In => "in",
            BinaryOperator::Instanceof => "instanceof",
            BinaryOperator::Exponential => "**",
        }
    }
}

/// An operator has an inverse exactly when it is in the equality family.
pub proof fn lemma_inverse_exists_iff_equality(op: BinaryOperator)
    ensures
        spec_equality_inverse(op) is Some <==> spec_is_equality(op),
{
}

/// The inverse mapping is an involution on the equality family: taking
/// the inverse twice gives the original operator back.
pub proof fn lemma_equality_inverse_involution(op: BinaryOperator)
    requires
        spec_is_equality(op),
    ensures
        spec_equality_inverse(op) matches Some(inv) && spec_equality_inverse(inv)
            == Some(op),
{
}

} // verus!
