//! `SourcePort`: language-agnostic test-file discovery, with its error
//! type.

use vstd::prelude::*;

use crate::domain::source::DiscoveryOutcome;
use crate::domain::types::{FilePath, SourceRoot};
use crate::text::{owned, push_str};

verus! {

/// Lets `ignore::Error` stand in fields; its contents stay opaque.
#[verifier::external_type_specification]
#[verifier::external_body]
pub struct ExIgnoreError(ignore::Error);

/// Discover the candidate test files under a root. Implemented by the
/// discovery adapters.
pub trait SourcePort {
    /// Walk `root` and return the candidates plus the non-fatal
    /// diagnostics collected on the way; a fatal failure is an error.
    fn discover_test_files(&self, root: &SourceRoot) -> Result<DiscoveryOutcome, SourceError>;
}

/// Errors produced by [`SourcePort`] implementations.
#[derive(Debug)]
pub enum SourceError {
    /// I/O failure during the walk, attributed to the path visited.
    Io {
        /// Path the walk was visiting when the error fired.
        path: FilePath,
        /// Underlying I/O error.
        source: std::io::Error,
    },
    /// A configured exclude pattern is empty or whitespace only; it
    /// would otherwise turn into a match-everything whitelist.
    EmptyExcludePattern {
        /// The offending raw pattern.
        pattern: String,
    },
    /// A configured glob failed to compile.
    InvalidGlob {
        /// Raw glob pattern that failed to compile.
        pattern: String,
        /// Underlying `globset` error.
        source: globset::Error,
    },
    /// The assembled override matcher was rejected.
    Ignore {
        /// Underlying `ignore` error.
        source: ignore::Error,
    },
}

/// The underlying error of a failure, by origin.
#[derive(Debug)]
pub enum ErrorCause<'a> {
    /// An I/O error.
    Io(&'a std::io::Error),
    /// A glob compile error.
    Glob(&'a globset::Error),
    /// A walker-construction error.
    Ignore(&'a ignore::Error),
}

impl SourceError {
    /// The human-readable rendering.
    pub open spec fn text(&self) -> Seq<char> {
        match self {
            SourceError::Io { path, .. } => "io error at "@ + path@,
            SourceError::EmptyExcludePattern { pattern } => "empty exclude pattern: '"@ + pattern@
                + "'"@,
            SourceError::InvalidGlob { pattern, .. } => "invalid glob pattern: "@ + pattern@,
            SourceError::Ignore { .. } => "ignore override builder rejected the assembled matcher"@,
        }
    }

    /// Renders [`SourceError::text`].
    pub fn to_string(&self) -> (r: String)
        ensures
            r@ == self.text(),
    {
        match self {
            SourceError::Io { path, .. } => {
                let mut s = owned("io error at ");
                push_str(&mut s, path.as_path());
                s
            },
            SourceError::EmptyExcludePattern { pattern } => {
                let mut s = owned("empty exclude pattern: '");
                push_str(&mut s, pattern.as_str());
                push_str(&mut s, "'");
                s
            },
            SourceError::InvalidGlob { pattern, .. } => {
                let mut s = owned("invalid glob pattern: ");
                push_str(&mut s, pattern.as_str());
                s
            },
            SourceError::Ignore { .. } => owned("ignore override builder rejected the assembled matcher"),
        }
    }

    /// The underlying error: every variant but an empty pattern carries
    /// one.
    pub fn source(&self) -> (r: Option<ErrorCause<'_>>)
        ensures
            r is Some <==> !(self is EmptyExcludePattern),
    {
        match self {
            SourceError::EmptyExcludePattern { .. } => None,
            SourceError::Io { source, .. } => Some(ErrorCause::Io(source)),
            SourceError::InvalidGlob { source, .. } => Some(ErrorCause::Glob(source)),
            SourceError::Ignore { source } => Some(ErrorCause::Ignore(source)),
        }
    }
}

} // verus!
