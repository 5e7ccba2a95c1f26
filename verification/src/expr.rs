//! Default-value expressions.

use vstd::prelude::*;

verus! {

/// A value that a column falls back to when a row gives none.
#[derive(Clone, Debug, PartialEq, Eq)]
pub enum Expr {
    /// The absent value.
    Null,
    /// A truth value.
    Bool(bool),
    /// A whole number.
    Int(i64),
    /// An expression written out in the dialect's own words.
    Custom(String),
}

} // verus!
