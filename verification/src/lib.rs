//! Detects a logical negation applied to the left-hand operand of an
//! equality or inequality comparison (`!foo === bar`), which is almost
//! always a mistake for negating the whole comparison (`!(foo === bar)`).
//!
//! The detector is a pure classification over an immutable syntax tree
//! node: it either produces exactly one diagnostic, with the inverse
//! operator as the suggested replacement, or none.

pub mod ast;
pub mod detector;
pub mod diagnostic;
pub mod operators;

pub use detector::NoNegationInEqualityCheck;
