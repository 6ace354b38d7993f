//! `ThresholdMode` — the strict/default/lenient cutoff selector.

use vstd::prelude::*;

verus! {

/// Threshold mode chosen on the command line or in the config file.
#[derive(Debug, Clone, Copy, PartialEq, Eq, PartialOrd, Ord, Hash)]
pub enum ThresholdMode {
    /// Tightest cutoffs.
    Strict,
    /// Middle cutoffs.
    Default,
    /// Loosest cutoffs.
    Lenient,
}

impl ThresholdMode {
    /// Stable wire string of the mode.
    pub open spec fn wire(self) -> Seq<char> {
        match self {
            ThresholdMode::Strict => "strict"@,
            ThresholdMode::Default => "default"@,
            ThresholdMode::Lenient => "lenient"@,
        }
    }

    /// Stable wire string of the mode.
    pub fn as_wire_str(&self) -> (r: &'static str)
        ensures
            r@ == self.wire(),
    {
        match self {
            ThresholdMode::Strict => "strict",
            ThresholdMode::Default => "default",
            ThresholdMode::Lenient => "lenient",
        }
    }
}

impl Default for ThresholdMode {
    fn default() -> (r: Self)
        ensures
            r == ThresholdMode::Default,
    {
        ThresholdMode::Default
    }
}

} // verus!
