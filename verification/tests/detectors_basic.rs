use scrap_core::detectors::{large_example, no_op_io, zero_assertion};
use scrap_core::domain::assertion_sources::AssertionSource;
use scrap_core::domain::behavioral_fact::{BehavioralFact, ResultDiscardKind};
use scrap_core::domain::classification::{Actionability, Severity};
use scrap_core::domain::config::DetectorConfig;
use scrap_core::domain::parsed::{ParsedAssertion, ParsedAttribute, ParsedTest};
use scrap_core::domain::smell::SmellCategory;
use scrap_core::domain::types::{FilePath, QualifiedName, Span, TestIdentity};
use std::collections::BTreeSet;

fn base_test(body_line_count: u32, facts: Vec<BehavioralFact>) -> ParsedTest {
    ParsedTest::new(
        TestIdentity::new(FilePath::new("a.rs"), QualifiedName::new("a::tests::t"), Span::new(1, 5, 1, 1)),
        Vec::new(),
        Vec::new(),
        body_line_count,
        Vec::new(),
        BTreeSet::new(),
        facts,
    )
}

fn smelly_test() -> ParsedTest {
    base_test(3, Vec::new())
}

fn noop_test() -> ParsedTest {
    base_test(3, vec![BehavioralFact::ResultDiscarded { kind: ResultDiscardKind::Call }])
}

fn large_test(n: u32) -> ParsedTest {
    base_test(n, Vec::new())
}

fn assertion(line: u32) -> ParsedAssertion {
    ParsedAssertion::new("assert", None, Span::new(line, line, 1, 1), false, None)
}

fn disabled() -> DetectorConfig {
    DetectorConfig { enabled: Some(false), penalty: None, line_threshold: None }
}

fn penalty(p: u32) -> DetectorConfig {
    DetectorConfig { enabled: None, penalty: Some(p), line_threshold: None }
}

fn with_source(src: AssertionSource) -> ParsedTest {
    let mut pt = smelly_test();
    pt.implicit_assertion_sources.push(src);
    pt
}

const ALL_SOURCES: [AssertionSource; 8] = [
    AssertionSource::ShouldPanic,
    AssertionSource::Proptest,
    AssertionSource::Quickcheck,
    AssertionSource::Kani,
    AssertionSource::Cucumber,
    AssertionSource::Trybuild,
    AssertionSource::Insta,
    AssertionSource::PrettyAssertions,
];

// ── zero_assertion ─────────────────────────────────────────────

#[test]
fn zero_assertion_detect_returns_none_when_disabled_via_config() {
    assert!(zero_assertion::detect(&smelly_test(), &disabled()).is_none());
}

#[test]
fn zero_assertion_detect_returns_none_with_explicit_assertion() {
    let mut pt = smelly_test();
    pt.assertions.push(ParsedAssertion::new("assert_eq", Some("1, 1".into()), Span::new(2, 2, 1, 1), false, None));
    assert!(zero_assertion::detect(&pt, &DetectorConfig::default()).is_none());
}

#[test]
fn detect_returns_none_with_implicit_source_should_panic() {
    assert!(zero_assertion::detect(&with_source(AssertionSource::ShouldPanic), &DetectorConfig::default()).is_none());
}

#[test]
fn detect_returns_none_with_implicit_source_proptest() {
    assert!(zero_assertion::detect(&with_source(AssertionSource::Proptest), &DetectorConfig::default()).is_none());
}

#[test]
fn detect_returns_none_with_implicit_source_quickcheck() {
    assert!(zero_assertion::detect(&with_source(AssertionSource::Quickcheck), &DetectorConfig::default()).is_none());
}

#[test]
fn detect_returns_none_with_implicit_source_kani() {
    assert!(zero_assertion::detect(&with_source(AssertionSource::Kani), &DetectorConfig::default()).is_none());
}

#[test]
fn detect_returns_none_with_implicit_source_cucumber() {
    assert!(zero_assertion::detect(&with_source(AssertionSource::Cucumber), &DetectorConfig::default()).is_none());
}

#[test]
fn detect_returns_none_with_implicit_source_trybuild() {
    assert!(zero_assertion::detect(&with_source(AssertionSource::Trybuild), &DetectorConfig::default()).is_none());
}

#[test]
fn detect_returns_none_with_implicit_source_insta() {
    assert!(zero_assertion::detect(&with_source(AssertionSource::Insta), &DetectorConfig::default()).is_none());
}

#[test]
fn detect_returns_none_with_implicit_source_pretty_assertions() {
    assert!(zero_assertion::detect(&with_source(AssertionSource::PrettyAssertions), &DetectorConfig::default()).is_none());
}

#[test]
fn detect_returns_none_with_result_asserted_behavioral_fact() {
    let pt = base_test(3, vec![BehavioralFact::ResultAsserted]);
    assert!(zero_assertion::detect(&pt, &DetectorConfig::default()).is_none());
}

#[test]
fn detect_returns_none_when_all_three_suppression_branches_populated() {
    let mut pt = smelly_test();
    pt.assertions.push(assertion(2));
    pt.implicit_assertion_sources.push(AssertionSource::ShouldPanic);
    pt.behavioral_facts.push(BehavioralFact::ResultAsserted);
    pt.attributes.push(ParsedAttribute::new("test", None));
    assert!(zero_assertion::detect(&pt, &DetectorConfig::default()).is_none());
}

#[test]
fn zero_assertion_detect_applies_custom_penalty_override() {
    let finding = zero_assertion::detect(&smelly_test(), &penalty(25)).expect("smelly test fires under override");
    assert_eq!(finding.smells.len(), 1);
    assert_eq!(finding.smells[0].penalty, 25);
    assert_eq!(finding.scrap_score, 25);
}

#[test]
fn zero_assertion_default_smell_shape() {
    let finding = zero_assertion::detect(&smelly_test(), &DetectorConfig::default()).expect("fires");
    let smell = &finding.smells[0];
    assert_eq!(smell.category, SmellCategory::ZeroAssertion);
    assert_eq!(smell.severity, Severity::High);
    assert_eq!(smell.actionability, Actionability::AutoRefactor);
    assert_eq!(smell.penalty, zero_assertion::DEFAULT_PENALTY);
    assert_eq!(smell.span, Some(Span::new(1, 5, 1, 1)));
    assert_eq!(finding.test.qualified_name.as_str(), "a::tests::t");
    assert!(!finding.exceeds_threshold);
}

#[test]
fn proptest_detect_suppression_is_monotonic() {
    for cfg in [DetectorConfig::default(), penalty(7), DetectorConfig { enabled: Some(true), penalty: None, line_threshold: None }] {
        assert!(zero_assertion::detect(&smelly_test(), &cfg).is_some());
        let mut a = smelly_test();
        a.assertions.push(assertion(1));
        assert!(zero_assertion::detect(&a, &cfg).is_none(), "adding an assertion must suppress");
        for src in ALL_SOURCES {
            assert!(zero_assertion::detect(&with_source(src), &cfg).is_none(), "adding an implicit source must suppress");
        }
        let c = base_test(3, vec![BehavioralFact::ResultAsserted]);
        assert!(zero_assertion::detect(&c, &cfg).is_none(), "adding ResultAsserted must suppress");
    }
}

// ── no_op_io ───────────────────────────────────────────────────

#[test]
fn no_op_io_detect_returns_none_when_disabled_via_config() {
    assert!(no_op_io::detect(&noop_test(), &disabled()).is_none());
}

#[test]
fn detect_returns_none_without_any_result_discard() {
    assert!(no_op_io::detect(&smelly_test(), &DetectorConfig::default()).is_none());
}

#[test]
fn no_op_io_detect_returns_none_with_explicit_assertion() {
    let mut pt = noop_test();
    pt.assertions.push(ParsedAssertion::new("assert_eq", Some("1, 1".into()), Span::new(2, 2, 1, 1), false, None));
    assert!(no_op_io::detect(&pt, &DetectorConfig::default()).is_none());
}

#[test]
fn detect_returns_none_with_implicit_source() {
    let mut pt = noop_test();
    pt.implicit_assertion_sources.push(AssertionSource::ShouldPanic);
    assert!(no_op_io::detect(&pt, &DetectorConfig::default()).is_none());
}

#[test]
fn detect_returns_none_with_result_asserted() {
    let mut pt = noop_test();
    pt.behavioral_facts.push(BehavioralFact::ResultAsserted);
    assert!(no_op_io::detect(&pt, &DetectorConfig::default()).is_none());
}

#[test]
fn detect_fires_on_bare_discard() {
    let finding = no_op_io::detect(&noop_test(), &DetectorConfig::default()).expect("baseline fires");
    assert_eq!(finding.smells.len(), 1);
    assert_eq!(finding.smells[0].category, SmellCategory::NoOpIo);
    assert_eq!(finding.smells[0].penalty, 8);
    assert_eq!(finding.smells[0].severity, Severity::Moderate);
    assert_eq!(finding.scrap_score, 8);
    assert_eq!(finding.smells[0].span, Some(Span::new(1, 5, 1, 1)));
}

#[test]
fn detect_fires_on_each_discard_kind() {
    for kind in [ResultDiscardKind::Call, ResultDiscardKind::ResultCtor, ResultDiscardKind::ResultAdapter] {
        let pt = base_test(3, vec![BehavioralFact::ResultDiscarded { kind }]);
        assert!(no_op_io::detect(&pt, &DetectorConfig::default()).is_some(), "kind {kind:?} should fire");
    }
}

#[test]
fn no_op_io_detect_applies_custom_penalty_override() {
    let finding = no_op_io::detect(&noop_test(), &penalty(25)).expect("smelly test fires under override");
    assert_eq!(finding.smells.len(), 1);
    assert_eq!(finding.smells[0].penalty, 25);
}

#[test]
fn no_op_io_is_subset_of_zero_assertion() {
    let pt = noop_test();
    assert!(no_op_io::detect(&pt, &DetectorConfig::default()).is_some());
    assert!(
        zero_assertion::detect(&pt, &DetectorConfig::default()).is_some(),
        "a no-op-io firing input must also fire zero-assertion (subset proof)",
    );
}

// ── large_example ──────────────────────────────────────────────

#[test]
fn large_example_detect_returns_none_when_disabled_via_config() {
    assert!(large_example::detect(&large_test(100), &disabled()).is_none());
}

#[test]
fn detect_returns_none_at_default_threshold_boundary() {
    assert!(large_example::detect(&large_test(30), &DetectorConfig::default()).is_none());
}

#[test]
fn detect_returns_none_for_empty_body() {
    assert!(large_example::detect(&large_test(0), &DetectorConfig::default()).is_none());
}

#[test]
fn detect_fires_one_past_default_threshold() {
    let finding = large_example::detect(&large_test(31), &DetectorConfig::default()).expect("31 > 30 fires");
    assert_eq!(finding.smells.len(), 1);
    assert_eq!(finding.smells[0].category, SmellCategory::LargeExample);
    assert_eq!(finding.smells[0].penalty, 4);
    assert_eq!(finding.smells[0].severity, Severity::Low);
    assert_eq!(finding.smells[0].actionability, Actionability::ManualSplit);
    assert_eq!(finding.scrap_score, 4);
    assert_eq!(finding.smells[0].span, Some(Span::new(1, 5, 1, 1)));
}

#[test]
fn detect_honors_custom_line_threshold_override() {
    let cfg = DetectorConfig { enabled: None, penalty: None, line_threshold: Some(10) };
    assert!(large_example::detect(&large_test(11), &cfg).is_some());
    assert!(large_example::detect(&large_test(10), &cfg).is_none());
}

#[test]
fn large_example_detect_applies_custom_penalty_override() {
    let finding = large_example::detect(&large_test(31), &penalty(25)).expect("large test fires under override");
    assert_eq!(finding.smells.len(), 1);
    assert_eq!(finding.smells[0].penalty, 25);
}

#[test]
fn proptest_detect_is_monotonic_in_body_line_count() {
    for threshold in [0u32, 1, 10, 30, 9_999, u32::MAX] {
        let cfg = DetectorConfig { enabled: None, penalty: None, line_threshold: Some(threshold) };
        for n in [threshold.saturating_add(1), threshold.saturating_add(100)] {
            if n > threshold {
                assert!(large_example::detect(&large_test(n), &cfg).is_some(), "n > threshold must fire");
            }
        }
        assert!(large_example::detect(&large_test(threshold), &cfg).is_none(), "== threshold must not fire");
        assert!(large_example::detect(&large_test(threshold.saturating_sub(1)), &cfg).is_none());
    }
}

#[test]
fn large_example_verdict_ignores_assertions_and_facts() {
    let plain = large_test(40);
    let mut busy = large_test(40);
    busy.assertions.push(assertion(2));
    busy.behavioral_facts.push(BehavioralFact::ResultAsserted);
    let cfg = DetectorConfig::default();
    assert_eq!(large_example::detect(&plain, &cfg).is_some(), large_example::detect(&busy, &cfg).is_some());
    assert!(large_example::detect(&busy, &cfg).is_some());
}

#[test]
fn disabled_detectors_are_silent_on_a_smelly_test() {
    let pt = base_test(99, vec![BehavioralFact::ResultDiscarded { kind: ResultDiscardKind::Call }]);
    assert!(zero_assertion::detect(&pt, &disabled()).is_none());
    assert!(no_op_io::detect(&pt, &disabled()).is_none());
    assert!(large_example::detect(&pt, &disabled()).is_none());
}
