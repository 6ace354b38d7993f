//! Severity and actionability buckets attached to each detected smell.

use vstd::prelude::*;

verus! {

/// Severity bucket of one smell instance.
#[derive(Debug, Clone, Copy, PartialEq, Eq, PartialOrd, Ord, Hash)]
pub enum Severity {
    /// Low severity.
    Low,
    /// Moderate severity.
    Moderate,
    /// High severity.
    High,
}

impl Severity {
    /// Lower-case wire name of the severity.
    pub open spec fn wire(self) -> Seq<char> {
        match self {
            Severity::Low => "low"@,
            Severity::Moderate => "moderate"@,
            Severity::High => "high"@,
        }
    }

    /// Lower-case wire name of the severity.
    pub fn as_wire_str(&self) -> (r: &'static str)
        ensures
            r@ == self.wire(),
    {
        match self {
            Severity::Low => "low",
            Severity::Moderate => "moderate",
            Severity::High => "high",
        }
    }
}

/// Recommended follow-up class for one smell instance.
#[derive(Debug, Clone, Copy, PartialEq, Eq, PartialOrd, Ord, Hash)]
pub enum Actionability {
    /// A mechanical rewrite fixes the smell.
    AutoRefactor,
    /// The fix is to split the test by hand.
    ManualSplit,
}

} // verus!
