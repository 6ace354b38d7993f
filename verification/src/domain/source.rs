//! Source-discovery types: what a discovery adapter returns from one walk.

use vstd::prelude::*;

use crate::domain::types::FilePath;
use crate::text::owned;

verus! {

/// Discovered files plus the non-fatal diagnostics of one walk.
#[derive(Debug, Clone, PartialEq, Eq)]
pub struct DiscoveryOutcome {
    /// Discovered file paths, in deterministic order.
    pub files: Vec<FilePath>,
    /// Non-fatal mid-walk observations.
    pub diagnostics: Vec<SourceDiagnostic>,
}

impl DiscoveryOutcome {
    /// Canonical constructor.
    pub fn new(files: Vec<FilePath>, diagnostics: Vec<SourceDiagnostic>) -> (r: Self)
        ensures
            r == (DiscoveryOutcome { files, diagnostics }),
    {
        DiscoveryOutcome { files, diagnostics }
    }
}

/// One non-fatal mid-walk observation.
#[derive(Debug, PartialEq, Eq)]
pub struct SourceDiagnostic {
    /// Path the walker was visiting.
    pub path: FilePath,
    /// Classification of the failure.
    pub kind: SourceDiagnosticKind,
    /// Human-readable detail.
    pub message: String,
}

impl Clone for SourceDiagnostic {
    fn clone(&self) -> (r: Self)
        ensures
            r == *self,
    {
        SourceDiagnostic { path: self.path.clone(), kind: self.kind, message: self.message.clone() }
    }
}

impl SourceDiagnostic {
    /// Canonical constructor.
    pub fn new(path: FilePath, kind: SourceDiagnosticKind, message: &str) -> (r: Self)
        ensures
            r.path == path,
            r.kind == kind,
            r.message@ == message@,
    {
        SourceDiagnostic { path, kind, message: owned(message) }
    }
}

/// Classification of a non-fatal mid-walk diagnostic.
#[derive(Debug, Clone, Copy, PartialEq, Eq, Hash)]
pub enum SourceDiagnosticKind {
    /// The walker could not enter a directory or read a file.
    PermissionDenied,
    /// Another recoverable I/O failure.
    MidwalkIo,
    /// Anything else the adapter could not classify.
    Other,
}

} // verus!
