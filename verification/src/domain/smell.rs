//! `SmellCategory` and the per-instance `Smell` record.

use vstd::prelude::*;

use crate::domain::classification::{Actionability, Severity};
use crate::domain::types::Span;
use crate::text::owned;

verus! {

/// Test smell taxonomy.
#[derive(Debug, Clone, Copy, PartialEq, Eq, PartialOrd, Ord, Hash)]
pub enum SmellCategory {
    /// The test body never asserts on the system under test.
    ZeroAssertion,
    /// An assertion that cannot fail.
    TautologicalAssertion,
    /// I/O whose result is discarded with no follow-up check.
    NoOpIo,
    /// Only surface metadata of an I/O effect is checked.
    SurfaceOnlyIo,
    /// The test body exceeds the configured line threshold.
    LargeExample,
}

impl SmellCategory {
    /// Stable wire string of the category.
    pub open spec fn wire(self) -> Seq<char> {
        match self {
            SmellCategory::ZeroAssertion => "zero_assertion"@,
            SmellCategory::TautologicalAssertion => "tautological_assertion"@,
            SmellCategory::NoOpIo => "no_op_io"@,
            SmellCategory::SurfaceOnlyIo => "surface_only_io"@,
            SmellCategory::LargeExample => "large_example"@,
        }
    }

    /// Stable wire string of the category.
    pub fn as_wire_str(&self) -> (r: &'static str)
        ensures
            r@ == self.wire(),
    {
        match self {
            SmellCategory::ZeroAssertion => "zero_assertion",
            SmellCategory::TautologicalAssertion => "tautological_assertion",
            SmellCategory::NoOpIo => "no_op_io",
            SmellCategory::SurfaceOnlyIo => "surface_only_io",
            SmellCategory::LargeExample => "large_example",
        }
    }
}

/// The static follow-up suggestion for each category.
pub open spec fn default_message_text(category: SmellCategory) -> Seq<char> {
    match category {
        SmellCategory::ZeroAssertion => "Add assertions for the function's observable effects."@,
        SmellCategory::TautologicalAssertion => "Replace the tautology with an assertion that can actually fail."@,
        SmellCategory::NoOpIo => "Inspect or assert on the data returned by the I/O call."@,
        SmellCategory::SurfaceOnlyIo => "Assert on the substantive payload, not just the response status."@,
        SmellCategory::LargeExample => "Split this example into focused tests or extract setup helpers."@,
    }
}

/// One detected smell instance.
#[derive(Debug, PartialEq)]
pub struct Smell {
    /// Which smell category the detector matched.
    pub category: SmellCategory,
    /// Severity bucket for this instance.
    pub severity: Severity,
    /// Recommended follow-up class.
    pub actionability: Actionability,
    /// Human-readable follow-up suggestion.
    pub ai_actionability_message: String,
    /// Score contribution of this smell.
    pub penalty: u32,
    /// Narrower location of the evidence, when the detector has one.
    pub span: Option<Span>,
}

impl Clone for Smell {
    fn clone(&self) -> (r: Self)
        ensures
            r == *self,
    {
        Smell {
            category: self.category,
            severity: self.severity,
            actionability: self.actionability,
            ai_actionability_message: self.ai_actionability_message.clone(),
            penalty: self.penalty,
            span: self.span,
        }
    }
}

impl Smell {
    /// Whether this smell carries exactly the given classification,
    /// penalty and span, with the category's default message.
    pub open spec fn is_default(
        self,
        category: SmellCategory,
        severity: Severity,
        actionability: Actionability,
        penalty: u32,
        span: Option<Span>,
    ) -> bool {
        &&& self.category == category
        &&& self.severity == severity
        &&& self.actionability == actionability
        &&& self.penalty == penalty
        &&& self.span == span
        &&& self.ai_actionability_message@ == default_message_text(category)
    }

    /// Build a smell carrying the category's default message.
    pub fn new(
        category: SmellCategory,
        severity: Severity,
        actionability: Actionability,
        penalty: u32,
        span: Option<Span>,
    ) -> (s: Self)
        ensures
            s.is_default(category, severity, actionability, penalty, span),
    {
        Self::with_message(
            category,
            severity,
            actionability,
            penalty,
            span,
            Self::default_message(category),
        )
    }

    /// Build a smell carrying a custom message.
    pub fn with_message(
        category: SmellCategory,
        severity: Severity,
        actionability: Actionability,
        penalty: u32,
        span: Option<Span>,
        message: &str,
    ) -> (s: Self)
        ensures
            s.category == category,
            s.severity == severity,
            s.actionability == actionability,
            s.penalty == penalty,
            s.span == span,
            s.ai_actionability_message@ == message@,
    {
        Smell {
            category,
            severity,
            actionability,
            ai_actionability_message: owned(message),
            penalty,
            span,
        }
    }

    /// Static follow-up template for the category.
    pub fn default_message(category: SmellCategory) -> (r: &'static str)
        ensures
            r@ == default_message_text(category),
    {
        match category {
            SmellCategory::ZeroAssertion => "Add assertions for the function's observable effects.",
            SmellCategory::TautologicalAssertion => "Replace the tautology with an assertion that can actually fail.",
            SmellCategory::NoOpIo => "Inspect or assert on the data returned by the I/O call.",
            SmellCategory::SurfaceOnlyIo => "Assert on the substantive payload, not just the response status.",
            SmellCategory::LargeExample => "Split this example into focused tests or extract setup helpers.",
        }
    }
}

} // verus!
