//! `TestParserPort`: language-specific parsing of one test source file
//! into language-agnostic facts.

use vstd::prelude::*;

use crate::domain::parsed::ParsedTestFile;
use crate::domain::types::{FilePath, Span};
use crate::ports::source::ErrorCause;
use crate::text::{owned, push_str};

verus! {

/// Parse a single test source file into language-agnostic facts.
/// Implemented once per source language by the adapter binaries.
pub trait TestParserPort {
    /// Parse `source` (the file's text) into a [`ParsedTestFile`];
    /// `path` names the file on the result. Partial-recovery
    /// observations go on the result's diagnostics, never as an error.
    fn parse_test_source(&self, source: &str, path: &FilePath) -> Result<ParsedTestFile, ParseError>;
}

/// Errors produced by [`TestParserPort`] implementations.
#[derive(Debug)]
pub enum ParseError {
    /// The adapter could not recover a usable projection.
    Syntax {
        /// Human-readable detail.
        message: String,
        /// Position of the error, when recoverable.
        span: Option<Span>,
    },
}

impl ParseError {
    /// The human-readable rendering: `syntax error: <message>`.
    pub open spec fn text(&self) -> Seq<char> {
        match self {
            ParseError::Syntax { message, .. } => "syntax error: "@ + message@,
        }
    }

    /// Renders [`ParseError::text`].
    pub fn to_string(&self) -> (r: String)
        ensures
            r@ == self.text(),
    {
        match self {
            ParseError::Syntax { message, .. } => {
                let mut s = owned("syntax error: ");
                push_str(&mut s, message.as_str());
                s
            },
        }
    }

    /// The underlying error: a syntax error has none.
    pub fn source(&self) -> (r: Option<ErrorCause<'_>>)
        ensures
            r is None,
    {
        None
    }
}

} // verus!
