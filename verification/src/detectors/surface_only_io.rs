//! `surface-only-io` detector: a test that writes (or creates) a file and
//! then checks only its surface (existence, kind, length) without ever
//! reading the content back.
//!
//! The smell is a correlation over the adapter-computed `path_key` of the
//! located filesystem facts: some key is written and surface-checked but
//! never read. A read-back of the same key disarms the smell for that
//! key. The detector does not consult positive checks: a test may assert
//! and still only look at the surface, so it stacks with the
//! assertion-based smells.

use vstd::prelude::*;

use super::{is_whole_test_finding, whole_test_finding, whole_test_shapes, SmellShape};
use crate::domain::behavioral_fact::BehavioralFact;
use crate::domain::classification::{Actionability, Severity};
use crate::domain::config::DetectorConfig;
use crate::domain::finding::Finding;
use crate::domain::parsed::ParsedTest;
use crate::domain::smell::SmellCategory;

verus! {

/// Default penalty of the smell.
pub const DEFAULT_PENALTY: u32 = 6;

/// Some fact of `parsed` is a filesystem write of `key`.
pub open spec fn writes(parsed: ParsedTest, key: Seq<char>) -> bool {
    exists|i: int|
        0 <= i < parsed.behavioral_facts@.len() && (#[trigger] parsed.behavioral_facts@[i] matches BehavioralFact::FilesystemWrite { path_key, .. } && path_key@ == key)
}

/// Some fact of `parsed` is a surface check of `key`.
pub open spec fn surface_checks(parsed: ParsedTest, key: Seq<char>) -> bool {
    exists|i: int|
        0 <= i < parsed.behavioral_facts@.len() && (#[trigger] parsed.behavioral_facts@[i] matches BehavioralFact::FilesystemSurfaceCheck { path_key, .. } && path_key@ == key)
}

/// Some fact of `parsed` is a content read of `key`.
pub open spec fn reads(parsed: ParsedTest, key: Seq<char>) -> bool {
    exists|i: int|
        0 <= i < parsed.behavioral_facts@.len() && (#[trigger] parsed.behavioral_facts@[i] matches BehavioralFact::FilesystemRead { path_key, .. } && path_key@ == key)
}

/// `key` shows the surface-only shape: written, surface-checked, never
/// read.
pub open spec fn surface_only(parsed: ParsedTest, key: Seq<char>) -> bool {
    writes(parsed, key) && surface_checks(parsed, key) && !reads(parsed, key)
}

/// Some key of `parsed` shows the surface-only shape.
pub open spec fn spec_has_surface_only_key(parsed: ParsedTest) -> bool {
    exists|key: Seq<char>| #[trigger] surface_only(parsed, key)
}

/// The detector fires: enabled and some key is surface-only.
pub open spec fn fires(parsed: ParsedTest, cfg: DetectorConfig) -> bool {
    cfg.enabled != Some(false) && spec_has_surface_only_key(parsed)
}

/// Penalty in effect under `cfg`.
pub open spec fn penalty(cfg: DetectorConfig) -> u32 {
    match cfg.penalty {
        Some(p) => p,
        None => DEFAULT_PENALTY,
    }
}

/// The smells this detector contributes.
pub open spec fn expected(parsed: ParsedTest, cfg: DetectorConfig) -> Seq<SmellShape> {
    whole_test_shapes(
        fires(parsed, cfg),
        parsed,
        SmellCategory::SurfaceOnlyIo,
        Severity::Moderate,
        Actionability::AutoRefactor,
        penalty(cfg),
    )
}

/// Evaluates [`surface_checks`] for `key`.
fn has_surface_check(parsed: &ParsedTest, key: &String) -> (r: bool)
    ensures
        r == surface_checks(*parsed, key@),
{
    let mut i: usize = 0;
    while i < parsed.behavioral_facts.len()
        invariant
            i <= parsed.behavioral_facts@.len(),
            forall|j: int|
                0 <= j < i ==> !(#[trigger] parsed.behavioral_facts@[j] matches BehavioralFact::FilesystemSurfaceCheck { path_key, .. } && path_key@ == key@),
        decreases parsed.behavioral_facts@.len() - i,
    {
        if let BehavioralFact::FilesystemSurfaceCheck { path_key, .. } = &parsed.behavioral_facts[i] {
            if *path_key == *key {
                return true;
            }
        }
        i = i + 1;
    }
    false
}

/// Evaluates [`reads`] for `key`.
fn has_read(parsed: &ParsedTest, key: &String) -> (r: bool)
    ensures
        r == reads(*parsed, key@),
{
    let mut i: usize = 0;
    while i < parsed.behavioral_facts.len()
        invariant
            i <= parsed.behavioral_facts@.len(),
            forall|j: int|
                0 <= j < i ==> !(#[trigger] parsed.behavioral_facts@[j] matches BehavioralFact::FilesystemRead { path_key, .. } && path_key@ == key@),
        decreases parsed.behavioral_facts@.len() - i,
    {
        if let BehavioralFact::FilesystemRead { path_key, .. } = &parsed.behavioral_facts[i] {
            if *path_key == *key {
                return true;
            }
        }
        i = i + 1;
    }
    false
}

/// Evaluates [`spec_has_surface_only_key`]: every written key is asked
/// whether it was surface-checked and never read.
pub fn has_surface_only_key(parsed: &ParsedTest) -> (r: bool)
    ensures
        r == spec_has_surface_only_key(*parsed),
{
    let mut i: usize = 0;
    while i < parsed.behavioral_facts.len()
        invariant
            i <= parsed.behavioral_facts@.len(),
            forall|j: int|
                0 <= j < i ==> (#[trigger] parsed.behavioral_facts@[j] matches BehavioralFact::FilesystemWrite { path_key, .. } ==> !surface_only(*parsed, path_key@)),
        decreases parsed.behavioral_facts@.len() - i,
    {
        if let BehavioralFact::FilesystemWrite { path_key, .. } = &parsed.behavioral_facts[i] {
            assert(writes(*parsed, path_key@));
            if has_surface_check(parsed, path_key) && !has_read(parsed, path_key) {
                assert(surface_only(*parsed, path_key@));
                return true;
            }
        }
        i = i + 1;
    }
    proof {
        assert forall|key: Seq<char>| !#[trigger] surface_only(*parsed, key) by {
            if writes(*parsed, key) {
                let j = choose|j: int|
                    0 <= j < parsed.behavioral_facts@.len() && (#[trigger] parsed.behavioral_facts@[j] matches BehavioralFact::FilesystemWrite { path_key, .. } && path_key@ == key);
                assert(parsed.behavioral_facts@[j] matches BehavioralFact::FilesystemWrite { .. });
            }
        }
    }
    false
}

/// Detect the surface-only-io smell on `parsed`.
pub fn detect(parsed: &ParsedTest, cfg: &DetectorConfig) -> (r: Option<Finding>)
    ensures
        r is Some <==> fires(*parsed, *cfg),
        r matches Some(f) ==> is_whole_test_finding(
            f,
            *parsed,
            SmellCategory::SurfaceOnlyIo,
            Severity::Moderate,
            Actionability::AutoRefactor,
            penalty(*cfg),
        ),
{
    if cfg.enabled == Some(false) {
        return None;
    }
    if !has_surface_only_key(parsed) {
        return None;
    }
    let penalty = match cfg.penalty {
        Some(p) => p,
        None => DEFAULT_PENALTY,
    };
    Some(
        whole_test_finding(
            parsed,
            SmellCategory::SurfaceOnlyIo,
            Severity::Moderate,
            Actionability::AutoRefactor,
            penalty,
        ),
    )
}

} // verus!
