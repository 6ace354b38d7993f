//! `no-op-io` detector: a test body that discards a `Result`-shaped value
//! (`let _ = <call>;`) and checks nothing.
//!
//! "Checks nothing" is modelled as at least one discard fact and no
//! positive check at all, so the smell is a strict subset of
//! `zero-assertion`; the two penalties stack in [`super::detect_all`].

use vstd::prelude::*;

use super::{
    has_positive_check, is_whole_test_finding, spec_has_positive_check, whole_test_finding,
    whole_test_shapes, SmellShape,
};
use crate::domain::behavioral_fact::BehavioralFact;
use crate::domain::classification::{Actionability, Severity};
use crate::domain::config::DetectorConfig;
use crate::domain::finding::Finding;
use crate::domain::parsed::ParsedTest;
use crate::domain::smell::SmellCategory;

verus! {

/// Default penalty of the smell.
pub const DEFAULT_PENALTY: u32 = 8;

/// The body carries at least one `let _ = ..;` discard fact.
pub open spec fn spec_has_result_discard(parsed: ParsedTest) -> bool {
    exists|i: int|
        0 <= i < parsed.behavioral_facts@.len() && #[trigger] parsed.behavioral_facts@[i]
            is ResultDiscarded
}

/// The detector fires: enabled, a discard, and no positive check.
pub open spec fn fires(parsed: ParsedTest, cfg: DetectorConfig) -> bool {
    &&& cfg.enabled != Some(false)
    &&& spec_has_result_discard(parsed)
    &&& !spec_has_positive_check(parsed)
}

/// Penalty in effect under `cfg`.
pub open spec fn penalty(cfg: DetectorConfig) -> u32 {
    match cfg.penalty {
        Some(p) => p,
        None => DEFAULT_PENALTY,
    }
}

/// The smells this detector contributes.
pub open spec fn expected(parsed: ParsedTest, cfg: DetectorConfig) -> Seq<SmellShape> {
    whole_test_shapes(
        fires(parsed, cfg),
        parsed,
        SmellCategory::NoOpIo,
        Severity::Moderate,
        Actionability::AutoRefactor,
        penalty(cfg),
    )
}

/// Evaluates [`spec_has_result_discard`].
fn has_result_discard(parsed: &ParsedTest) -> (r: bool)
    ensures
        r == spec_has_result_discard(*parsed),
{
    let mut i: usize = 0;
    while i < parsed.behavioral_facts.len()
        invariant
            i <= parsed.behavioral_facts@.len(),
            forall|j: int| 0 <= j < i ==> !(#[trigger] parsed.behavioral_facts@[j] is ResultDiscarded),
        decreases parsed.behavioral_facts@.len() - i,
    {
        if let BehavioralFact::ResultDiscarded { .. } = &parsed.behavioral_facts[i] {
            return true;
        }
        i = i + 1;
    }
    false
}

/// Detect the no-op-io smell on `parsed`: one whole-test smell of
/// moderate severity when the detector is enabled, the body discards a
/// result and nothing in it is a positive check.
pub fn detect(parsed: &ParsedTest, cfg: &DetectorConfig) -> (r: Option<Finding>)
    ensures
        r is Some <==> fires(*parsed, *cfg),
        r matches Some(f) ==> is_whole_test_finding(
            f,
            *parsed,
            SmellCategory::NoOpIo,
            Severity::Moderate,
            Actionability::AutoRefactor,
            penalty(*cfg),
        ),
{
    if cfg.enabled == Some(false) {
        return None;
    }
    if !has_result_discard(parsed) {
        return None;
    }
    if has_positive_check(parsed) {
        return None;
    }
    let penalty = match cfg.penalty {
        Some(p) => p,
        None => DEFAULT_PENALTY,
    };
    Some(
        whole_test_finding(
            parsed,
            SmellCategory::NoOpIo,
            Severity::Moderate,
            Actionability::AutoRefactor,
            penalty,
        ),
    )
}

} // verus!
