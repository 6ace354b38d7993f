//! `OptOut` — the allowlist of per-test detector suppressions.

use vstd::prelude::*;

verus! {

/// Per-test detector-suppression markers, projected from
/// `#[allow(scrap::*)]` attributes on the test function. Ordered by
/// declaration so sets of them serialize deterministically.
#[derive(Debug, Clone, Copy, PartialEq, Eq, PartialOrd, Ord, Hash)]
pub enum OptOut {
    /// Suppress the zero-assertion detector.
    NoAsserts,
    /// Suppress the tautological-assertion detector.
    Tautology,
    /// Suppress the no-op-io detector.
    NoOp,
}

} // verus!
