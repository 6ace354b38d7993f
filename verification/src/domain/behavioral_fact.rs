//! `BehavioralFact` — typed projection of body-shape facts the adapter
//! parser recognises and the detectors consume.

use vstd::prelude::*;

use crate::domain::types::Span;

verus! {

/// Syntactic shape of a discarded (`let _ = <expr>;`) initializer.
#[derive(Debug, Clone, Copy, PartialEq, Eq, Hash, PartialOrd, Ord)]
pub enum ResultDiscardKind {
    /// A function or method call whose result is dropped.
    Call,
    /// An explicit `Ok(..)` / `Err(..)` constructor whose value is dropped.
    ResultCtor,
    /// A `.ok()` / `.err()` conversion whose value is dropped.
    ResultAdapter,
}

/// Flavour of a filesystem write/create call.
#[derive(Debug, Clone, Copy, PartialEq, Eq, Hash)]
pub enum FsCallKind {
    /// Write whole contents to a path.
    Write,
    /// Create or truncate a file handle.
    CreateFile,
    /// Create a directory.
    CreateDir,
    /// A temporary file created on disk at construction.
    Tempfile,
    /// Open a path for writing.
    OpenWrite,
}

/// Flavour of a filesystem surface check (metadata, not content).
#[derive(Debug, Clone, Copy, PartialEq, Eq, Hash)]
pub enum FsSurfaceCheckKind {
    /// Existence only.
    Exists,
    /// Is-a-file predicate.
    IsFile,
    /// Is-a-directory predicate.
    IsDir,
    /// Metadata only, including length-only checks.
    Metadata,
}

/// Flavour of a filesystem content read.
#[derive(Debug, Clone, Copy, PartialEq, Eq, Hash)]
pub enum FsReadKind {
    /// Read whole contents to bytes.
    Read,
    /// Read whole contents to a string.
    ReadToString,
    /// Open a file handle for reading.
    OpenRead,
    /// Buffered read over an opened file.
    BufRead,
}

/// Body-shape behavioral facts the adapter parser recognises.
#[derive(Debug, PartialEq, Eq, Hash)]
pub enum BehavioralFact {
    /// The body holds a `.unwrap()` / `.expect(..)` chain.
    ResultAsserted,
    /// The body holds a `let _ = <expr>;` discard of the given shape.
    ResultDiscarded {
        /// Shape of the discarded initializer.
        kind: ResultDiscardKind,
    },
    /// A located filesystem write at `path_key`.
    FilesystemWrite {
        /// Flavour of the write.
        kind: FsCallKind,
        /// Adapter-computed path identity used for correlation.
        path_key: String,
        /// Span of the path argument at the call site.
        path_arg_span: Span,
    },
    /// A located surface check of `path_key`.
    FilesystemSurfaceCheck {
        /// Flavour of the check.
        kind: FsSurfaceCheckKind,
        /// Adapter-computed path identity used for correlation.
        path_key: String,
        /// Span of the path argument at the call site.
        path_arg_span: Span,
    },
    /// A located content read of `path_key`.
    FilesystemRead {
        /// Flavour of the read.
        kind: FsReadKind,
        /// Adapter-computed path identity used for correlation.
        path_key: String,
        /// Span of the path argument at the call site.
        path_arg_span: Span,
    },
}

impl Clone for BehavioralFact {
    fn clone(&self) -> (r: Self)
        ensures
            r == *self,
    {
        match self {
            BehavioralFact::ResultAsserted => BehavioralFact::ResultAsserted,
            BehavioralFact::ResultDiscarded { kind } => BehavioralFact::ResultDiscarded { kind: *kind },
            BehavioralFact::FilesystemWrite { kind, path_key, path_arg_span } => {
                BehavioralFact::FilesystemWrite {
                    kind: *kind,
                    path_key: path_key.clone(),
                    path_arg_span: *path_arg_span,
                }
            },
            BehavioralFact::FilesystemSurfaceCheck { kind, path_key, path_arg_span } => {
                BehavioralFact::FilesystemSurfaceCheck {
                    kind: *kind,
                    path_key: path_key.clone(),
                    path_arg_span: *path_arg_span,
                }
            },
            BehavioralFact::FilesystemRead { kind, path_key, path_arg_span } => {
                BehavioralFact::FilesystemRead {
                    kind: *kind,
                    path_key: path_key.clone(),
                    path_arg_span: *path_arg_span,
                }
            },
        }
    }
}

} // verus!
