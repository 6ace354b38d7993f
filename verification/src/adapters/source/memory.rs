//! `MemorySource`: an in-memory `SourcePort` for tests and embedders.

use vstd::prelude::*;

use crate::domain::source::{DiscoveryOutcome, SourceDiagnostic};
use crate::domain::types::{FilePath, SourceRoot};
use crate::ports::source::{SourceError, SourcePort};

verus! {

/// In-memory source: returns its configured files and diagnostics from
/// every discovery, whatever root is asked for.
#[derive(Debug)]
pub struct MemorySource {
    /// Files returned from every discovery.
    pub files: Vec<FilePath>,
    /// Diagnostics returned from every discovery.
    pub diagnostics: Vec<SourceDiagnostic>,
}

/// A copy of `files`.
fn copy_files(files: &Vec<FilePath>) -> (r: Vec<FilePath>)
    ensures
        r@ == files@,
{
    let mut out: Vec<FilePath> = Vec::new();
    let mut i: usize = 0;
    while i < files.len()
        invariant
            i <= files@.len(),
            out@ == files@.take(i as int),
        decreases files@.len() - i,
    {
        out.push(files[i].clone());
        assert(out@ =~= files@.take(i + 1));
        i = i + 1;
    }
    assert(files@.take(files@.len() as int) =~= files@);
    out
}

/// A copy of `diagnostics`.
fn copy_diagnostics(diagnostics: &Vec<SourceDiagnostic>) -> (r: Vec<SourceDiagnostic>)
    ensures
        r@ == diagnostics@,
{
    let mut out: Vec<SourceDiagnostic> = Vec::new();
    let mut i: usize = 0;
    while i < diagnostics.len()
        invariant
            i <= diagnostics@.len(),
            out@ == diagnostics@.take(i as int),
        decreases diagnostics@.len() - i,
    {
        out.push(diagnostics[i].clone());
        assert(out@ =~= diagnostics@.take(i + 1));
        i = i + 1;
    }
    assert(diagnostics@.take(diagnostics@.len() as int) =~= diagnostics@);
    out
}

impl Clone for MemorySource {
    fn clone(&self) -> (r: Self)
        ensures
            r.files@ == self.files@,
            r.diagnostics@ == self.diagnostics@,
    {
        MemorySource {
            files: copy_files(&self.files),
            diagnostics: copy_diagnostics(&self.diagnostics),
        }
    }
}

impl MemorySource {
    /// Source with the given files and diagnostics.
    pub fn new(files: Vec<FilePath>, diagnostics: Vec<SourceDiagnostic>) -> (r: Self)
        ensures
            r.files == files,
            r.diagnostics == diagnostics,
    {
        MemorySource { files, diagnostics }
    }

    /// Source with the given files and no diagnostics.
    pub fn with_files(files: Vec<FilePath>) -> (r: Self)
        ensures
            r.files == files,
            r.diagnostics@.len() == 0,
    {
        Self::new(files, Vec::new())
    }
}

impl SourcePort for MemorySource {
    fn discover_test_files(&self, root: &SourceRoot) -> (r: Result<DiscoveryOutcome, SourceError>)
        ensures
            r matches Ok(o) && o.files@ == self.files@ && o.diagnostics@ == self.diagnostics@,
    {
        Ok(DiscoveryOutcome::new(copy_files(&self.files), copy_diagnostics(&self.diagnostics)))
    }
}

} // verus!
