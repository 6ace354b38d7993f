//! `zero-assertion` detector: a test with no observable check on the
//! system under test.

use vstd::prelude::*;

use super::{
    has_positive_check, is_whole_test_finding, spec_has_positive_check, whole_test_finding,
    whole_test_shapes, SmellShape,
};
use crate::domain::classification::{Actionability, Severity};
use crate::domain::config::DetectorConfig;
use crate::domain::finding::Finding;
use crate::domain::parsed::ParsedTest;
use crate::domain::smell::SmellCategory;

verus! {

/// Default penalty of the smell.
pub const DEFAULT_PENALTY: u32 = 10;

/// The detector fires: enabled, and no explicit assertion, no implicit
/// source and no unwrap/expect chain.
pub open spec fn fires(parsed: ParsedTest, cfg: DetectorConfig) -> bool {
    cfg.enabled != Some(false) && !spec_has_positive_check(parsed)
}

/// Penalty in effect under `cfg`.
pub open spec fn penalty(cfg: DetectorConfig) -> u32 {
    match cfg.penalty {
        Some(p) => p,
        None => DEFAULT_PENALTY,
    }
}

/// The smells this detector contributes.
pub open spec fn expected(parsed: ParsedTest, cfg: DetectorConfig) -> Seq<SmellShape> {
    whole_test_shapes(
        fires(parsed, cfg),
        parsed,
        SmellCategory::ZeroAssertion,
        Severity::High,
        Actionability::AutoRefactor,
        penalty(cfg),
    )
}

/// Detect the zero-assertion smell on `parsed`.
pub fn detect(parsed: &ParsedTest, cfg: &DetectorConfig) -> (r: Option<Finding>)
    ensures
        r is Some <==> fires(*parsed, *cfg),
        r matches Some(f) ==> is_whole_test_finding(
            f,
            *parsed,
            SmellCategory::ZeroAssertion,
            Severity::High,
            Actionability::AutoRefactor,
            penalty(*cfg),
        ),
{
    if cfg.enabled == Some(false) {
        return None;
    }
    if has_positive_check(parsed) {
        return None;
    }
    let penalty = match cfg.penalty {
        Some(p) => p,
        None => DEFAULT_PENALTY,
    };
    Some(
        whole_test_finding(
            parsed,
            SmellCategory::ZeroAssertion,
            Severity::High,
            Actionability::AutoRefactor,
            penalty,
        ),
    )
}

} // verus!
