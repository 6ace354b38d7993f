//! `LiteralValue` — typed literal facts carried on a parsed assertion
//! when its single argument is a literal expression.

use vstd::prelude::*;

verus! {

/// Typed literal value of a single-argument assertion.
#[derive(Debug, PartialEq, Eq, Hash)]
pub enum LiteralValue {
    /// Boolean literal.
    Bool(bool),
    /// Integer literal, normalized to `i128`.
    Int(i128),
    /// String literal, unescaped.
    Str(String),
    /// Character literal.
    Char(char),
    /// Any other literal kind, as written.
    Verbatim(String),
}

impl Clone for LiteralValue {
    fn clone(&self) -> (r: Self)
        ensures
            r == *self,
    {
        match self {
            LiteralValue::Bool(b) => LiteralValue::Bool(*b),
            LiteralValue::Int(n) => LiteralValue::Int(*n),
            LiteralValue::Str(s) => LiteralValue::Str(s.clone()),
            LiteralValue::Char(c) => LiteralValue::Char(*c),
            LiteralValue::Verbatim(s) => LiteralValue::Verbatim(s.clone()),
        }
    }
}

} // verus!
