//! `InitError`: the typed error surface of the `init` subcommand.

use vstd::prelude::*;

use crate::text::{owned, push_str};

verus! {

/// Lets `std::io::Error` stand in signatures and fields; its contents
/// stay opaque.
#[verifier::external_type_specification]
#[verifier::external_body]
pub struct ExIoError(std::io::Error);

/// Errors of the `init` subcommand.
#[derive(Debug)]
pub enum InitError {
    /// The config file exists and `--force` was not passed.
    Exists {
        /// Path the caller attempted to write.
        path: String,
    },
    /// Writing the generated config failed.
    Io {
        /// Path the writer attempted to create.
        path: String,
        /// Underlying I/O error.
        source: std::io::Error,
    },
}

impl InitError {
    /// The human-readable rendering; the `Exists` text carries the
    /// `--force` remediation hint.
    pub open spec fn message(&self) -> Seq<char> {
        match self {
            InitError::Exists { path } => path@ + " already exists; pass --force to overwrite"@,
            InitError::Io { path, .. } => "failed to write "@ + path@,
        }
    }

    /// Renders [`InitError::message`].
    pub fn to_string(&self) -> (r: String)
        ensures
            r@ == self.message(),
    {
        match self {
            InitError::Exists { path } => {
                let mut s = path.clone();
                push_str(&mut s, " already exists; pass --force to overwrite");
                s
            },
            InitError::Io { path, .. } => {
                let mut s = owned("failed to write ");
                push_str(&mut s, path.as_str());
                s
            },
        }
    }

    /// The underlying error: the I/O failure for `Io`, none for
    /// `Exists`.
    pub fn source(&self) -> (r: Option<&std::io::Error>)
        ensures
            r is Some <==> self is Io,
            self matches InitError::Io { source, .. } ==> r == Some(source),
    {
        match self {
            InitError::Exists { .. } => None,
            InitError::Io { source, .. } => Some(source),
        }
    }
}

} // verus!
