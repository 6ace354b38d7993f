//! `large-example` detector: a test body longer than the configured line
//! threshold.
//!
//! Purely structural: it reads only the body line count, so it neither
//! suppresses nor is suppressed by the assertion-based smells.

use vstd::prelude::*;

use super::{is_whole_test_finding, whole_test_finding, whole_test_shapes, SmellShape};
use crate::domain::classification::{Actionability, Severity};
use crate::domain::config::DetectorConfig;
use crate::domain::finding::Finding;
use crate::domain::parsed::ParsedTest;
use crate::domain::smell::SmellCategory;

verus! {

/// Default penalty of the smell.
pub const DEFAULT_PENALTY: u32 = 4;

/// Default body-line threshold; a body exactly at the threshold does not
/// fire.
pub const DEFAULT_LINE_THRESHOLD: u32 = 30;

/// Threshold in effect under `cfg`.
pub open spec fn threshold(cfg: DetectorConfig) -> u32 {
    match cfg.line_threshold {
        Some(t) => t,
        None => DEFAULT_LINE_THRESHOLD,
    }
}

/// The detector fires: enabled and the body is strictly longer than the
/// threshold.
pub open spec fn fires(parsed: ParsedTest, cfg: DetectorConfig) -> bool {
    cfg.enabled != Some(false) && parsed.body_line_count > threshold(cfg)
}

/// Penalty in effect under `cfg`.
pub open spec fn penalty(cfg: DetectorConfig) -> u32 {
    match cfg.penalty {
        Some(p) => p,
        None => DEFAULT_PENALTY,
    }
}

/// The smells this detector contributes.
pub open spec fn expected(parsed: ParsedTest, cfg: DetectorConfig) -> Seq<SmellShape> {
    whole_test_shapes(
        fires(parsed, cfg),
        parsed,
        SmellCategory::LargeExample,
        Severity::Low,
        Actionability::ManualSplit,
        penalty(cfg),
    )
}

/// Detect the large-example smell on `parsed`.
pub fn detect(parsed: &ParsedTest, cfg: &DetectorConfig) -> (r: Option<Finding>)
    ensures
        r is Some <==> fires(*parsed, *cfg),
        r matches Some(f) ==> is_whole_test_finding(
            f,
            *parsed,
            SmellCategory::LargeExample,
            Severity::Low,
            Actionability::ManualSplit,
            penalty(*cfg),
        ),
{
    if cfg.enabled == Some(false) {
        return None;
    }
    let threshold = match cfg.line_threshold {
        Some(t) => t,
        None => DEFAULT_LINE_THRESHOLD,
    };
    if parsed.body_line_count <= threshold {
        return None;
    }
    let penalty = match cfg.penalty {
        Some(p) => p,
        None => DEFAULT_PENALTY,
    };
    Some(
        whole_test_finding(
            parsed,
            SmellCategory::LargeExample,
            Severity::Low,
            Actionability::ManualSplit,
            penalty,
        ),
    )
}

} // verus!
