//! Parsed test-source types: the data every adapter produces and every
//! detector consumes.

use vstd::prelude::*;

use std::collections::BTreeSet;

use crate::domain::assertion_sources::AssertionSource;
use crate::domain::behavioral_fact::BehavioralFact;
use crate::domain::literal_value::LiteralValue;
use crate::domain::opt_outs::OptOut;
use crate::domain::types::{FilePath, Span, TestIdentity};
use crate::text::owned;

verus! {

/// Adapter output for one source file.
#[derive(Debug, Clone, PartialEq, Eq)]
pub struct ParsedTestFile {
    /// Source file this projection was parsed from.
    pub path: FilePath,
    /// Tests recovered from the file.
    pub tests: Vec<ParsedTest>,
    /// Non-fatal parse-time observations.
    pub diagnostics: Vec<ParseDiagnostic>,
}

impl ParsedTestFile {
    /// Canonical constructor.
    pub fn new(path: FilePath, tests: Vec<ParsedTest>, diagnostics: Vec<ParseDiagnostic>) -> (r:
        Self)
        ensures
            r == (ParsedTestFile { path, tests, diagnostics }),
    {
        ParsedTestFile { path, tests, diagnostics }
    }
}

/// One test projected to language-agnostic structural facts.
#[derive(Debug, Clone, PartialEq, Eq)]
pub struct ParsedTest {
    /// File + qualified name + span.
    pub identity: TestIdentity,
    /// Test-attribute observations.
    pub attributes: Vec<ParsedAttribute>,
    /// Explicit assertions detected in the body.
    pub assertions: Vec<ParsedAssertion>,
    /// Line count of the body block interior.
    pub body_line_count: u32,
    /// Implicit-assertion sources recognised in the body or attributes.
    pub implicit_assertion_sources: Vec<AssertionSource>,
    /// Per-test detector suppressions.
    pub opt_outs: BTreeSet<OptOut>,
    /// Body-shape behavioral facts, in emission order.
    pub behavioral_facts: Vec<BehavioralFact>,
}

impl ParsedTest {
    /// Canonical constructor.
    pub fn new(
        identity: TestIdentity,
        attributes: Vec<ParsedAttribute>,
        assertions: Vec<ParsedAssertion>,
        body_line_count: u32,
        implicit_assertion_sources: Vec<AssertionSource>,
        opt_outs: BTreeSet<OptOut>,
        behavioral_facts: Vec<BehavioralFact>,
    ) -> (r: Self)
        ensures
            r == (ParsedTest {
                identity,
                attributes,
                assertions,
                body_line_count,
                implicit_assertion_sources,
                opt_outs,
                behavioral_facts,
            }),
    {
        ParsedTest {
            identity,
            attributes,
            assertions,
            body_line_count,
            implicit_assertion_sources,
            opt_outs,
            behavioral_facts,
        }
    }
}

/// Test-level attribute as a name + raw-arguments bag.
#[derive(Debug, Clone, PartialEq, Eq)]
pub struct ParsedAttribute {
    /// Unqualified attribute name.
    pub name: String,
    /// Raw argument text as written, `None` when there were none.
    pub raw: Option<String>,
}

impl ParsedAttribute {
    /// Canonical constructor.
    pub fn new(name: &str, raw: Option<String>) -> (r: Self)
        ensures
            r.name@ == name@,
            r.raw == raw,
    {
        ParsedAttribute { name: owned(name), raw }
    }
}

/// One assertion call recovered by the parser, with the structural
/// facts the tautology detector reads.
#[derive(Debug, Clone, PartialEq, Eq)]
pub struct ParsedAssertion {
    /// Leaf segment of the macro path (e.g. `assert_eq`).
    pub name: String,
    /// Verbatim argument text, `None` for an empty macro.
    pub raw_args: Option<String>,
    /// Source span of the assertion call.
    pub span: Span,
    /// The two compared arguments are token-identical.
    pub arguments_identical: bool,
    /// The single argument parsed as a literal, when it did.
    pub single_arg_value: Option<LiteralValue>,
}

impl ParsedAssertion {
    /// Canonical constructor.
    pub fn new(
        name: &str,
        raw_args: Option<String>,
        span: Span,
        arguments_identical: bool,
        single_arg_value: Option<LiteralValue>,
    ) -> (r: Self)
        ensures
            r.name@ == name@,
            r.raw_args == raw_args,
            r.span == span,
            r.arguments_identical == arguments_identical,
            r.single_arg_value == single_arg_value,
    {
        ParsedAssertion { name: owned(name), raw_args, span, arguments_identical, single_arg_value }
    }
}

/// One non-fatal parse-time observation.
#[derive(Debug, Clone, PartialEq, Eq)]
pub struct ParseDiagnostic {
    /// What kind of diagnostic this is.
    pub kind: ParseDiagnosticKind,
    /// Source span when the diagnostic localizes.
    pub span: Option<Span>,
    /// Human-readable detail.
    pub message: String,
}

impl ParseDiagnostic {
    /// Canonical constructor.
    pub fn new(kind: ParseDiagnosticKind, span: Option<Span>, message: &str) -> (r: Self)
        ensures
            r.kind == kind,
            r.span == span,
            r.message@ == message@,
    {
        ParseDiagnostic { kind, span, message: owned(message) }
    }
}

/// Kind of parse-time diagnostic.
#[derive(Debug, Clone, Copy, PartialEq, Eq, Hash)]
pub enum ParseDiagnosticKind {
    /// A syntax error surfaced via partial recovery.
    Syntax,
    /// An attribute the parser saw but does not understand.
    UnsupportedAttribute,
}

} // verus!
