use scrap_core::detectors::{has_positive_check, surface_only_io, tautological_assertion};
use scrap_core::domain::assertion_sources::AssertionSource;
use scrap_core::domain::behavioral_fact::{BehavioralFact, FsCallKind, FsReadKind, FsSurfaceCheckKind};
use scrap_core::domain::classification::{Actionability, Severity};
use scrap_core::domain::config::DetectorConfig;
use scrap_core::domain::literal_value::LiteralValue;
use scrap_core::domain::opt_outs::OptOut;
use scrap_core::domain::parsed::{ParsedAssertion, ParsedAttribute, ParsedTest};
use scrap_core::domain::smell::SmellCategory;
use scrap_core::domain::types::{FilePath, QualifiedName, Span, TestIdentity};
use std::collections::BTreeSet;

use tautological_assertion::{detect as taut_detect, PENALTY};

fn identity() -> TestIdentity {
    TestIdentity::new(FilePath::new("a.rs"), QualifiedName::new("a::tests::t"), Span::new(10, 20, 1, 1))
}

fn parsed_with_assertions(assertions: Vec<ParsedAssertion>) -> ParsedTest {
    ParsedTest::new(identity(), Vec::new(), assertions, 5, Vec::new(), BTreeSet::new(), Vec::new())
}

fn parsed_with_one(arguments_identical: bool, single_arg_value: Option<LiteralValue>) -> ParsedTest {
    parsed_with_assertions(vec![ParsedAssertion::new("assert", None, Span::new(15, 15, 1, 1), arguments_identical, single_arg_value)])
}

#[test]
fn detect_returns_none_for_empty_assertions() {
    assert!(taut_detect(&parsed_with_assertions(vec![])).is_none());
}

#[test]
fn detect_returns_none_for_real_assertion() {
    assert!(taut_detect(&parsed_with_one(false, None)).is_none());
}

#[test]
fn detect_returns_finding_for_assert_eq_x_x() {
    let finding = taut_detect(&parsed_with_one(true, None)).expect("Some(Finding)");
    assert_eq!(finding.smells.len(), 1);
    assert_eq!(finding.smells[0].category, SmellCategory::TautologicalAssertion);
    assert_eq!(finding.smells[0].penalty, PENALTY);
    assert_eq!(finding.scrap_score, 10, "scrap_score should be 10");
}

#[test]
fn detect_returns_finding_for_assert_true() {
    let finding = taut_detect(&parsed_with_one(false, Some(LiteralValue::Bool(true)))).expect("Some(Finding)");
    assert_eq!(finding.smells.len(), 1);
    assert_eq!(finding.smells[0].penalty, PENALTY);
}

#[test]
fn detect_returns_none_for_assert_false() {
    assert!(taut_detect(&parsed_with_one(false, Some(LiteralValue::Bool(false)))).is_none());
}

#[test]
fn detect_returns_none_for_int_literal() {
    assert!(taut_detect(&parsed_with_one(false, Some(LiteralValue::Int(0)))).is_none());
}

#[test]
fn detect_returns_none_for_str_literal() {
    assert!(taut_detect(&parsed_with_one(false, Some(LiteralValue::Str(String::new())))).is_none());
}

#[test]
fn detect_returns_none_for_verbatim() {
    assert!(taut_detect(&parsed_with_one(false, Some(LiteralValue::Verbatim("3.14".into())))).is_none());
}

#[test]
fn detect_aggregates_multiple_tautological_assertions() {
    let parsed = parsed_with_assertions(vec![
        ParsedAssertion::new("assert_eq", None, Span::new(11, 11, 1, 1), true, None),
        ParsedAssertion::new("assert", None, Span::new(12, 12, 1, 1), false, Some(LiteralValue::Bool(true))),
        ParsedAssertion::new("assert_ne", None, Span::new(13, 13, 1, 1), true, None),
    ]);
    let finding = taut_detect(&parsed).expect("Some(Finding)");
    assert_eq!(finding.smells.len(), 3);
    assert_eq!(finding.scrap_score, 30, "scrap_score should be 30 (3 x 10)");
    for smell in &finding.smells {
        assert_eq!(smell.category, SmellCategory::TautologicalAssertion);
        assert_eq!(smell.penalty, PENALTY);
    }
}

#[test]
fn detect_emitted_smell_carries_assertion_span() {
    let assertion_span = Span::new(42, 42, 1, 1);
    let parsed =
        parsed_with_assertions(vec![ParsedAssertion::new("assert", None, assertion_span, false, Some(LiteralValue::Bool(true)))]);
    let finding = taut_detect(&parsed).expect("Some(Finding)");
    assert_eq!(finding.smells[0].span, Some(assertion_span));
}

#[test]
fn detect_each_smell_in_aggregate_carries_its_own_span() {
    let parsed = parsed_with_assertions(vec![
        ParsedAssertion::new("assert_eq", None, Span::new(11, 11, 1, 1), true, None),
        ParsedAssertion::new("assert_eq", None, Span::new(22, 22, 1, 1), true, None),
    ]);
    let finding = taut_detect(&parsed).expect("Some(Finding)");
    assert_eq!(finding.smells[0].span, Some(Span::new(11, 11, 1, 1)));
    assert_eq!(finding.smells[1].span, Some(Span::new(22, 22, 1, 1)));
}

#[test]
fn detect_does_not_consult_opt_outs() {
    let mut opt_outs = BTreeSet::new();
    opt_outs.insert(OptOut::Tautology);
    let parsed = ParsedTest::new(
        identity(),
        Vec::new(),
        vec![ParsedAssertion::new("assert_eq", None, Span::new(15, 15, 1, 1), true, None)],
        5,
        Vec::new(),
        opt_outs,
        Vec::new(),
    );
    assert!(taut_detect(&parsed).is_some());
}

#[test]
fn detect_does_not_consult_should_panic_implicit_source() {
    let parsed = ParsedTest::new(
        identity(),
        vec![ParsedAttribute::new("should_panic", None)],
        vec![ParsedAssertion::new("assert", None, Span::new(15, 15, 1, 1), false, Some(LiteralValue::Bool(true)))],
        5,
        vec![AssertionSource::ShouldPanic],
        BTreeSet::new(),
        Vec::new(),
    );
    assert!(taut_detect(&parsed).is_some());
}

#[test]
fn detect_smell_count_equals_tautological_count() {
    let parsed = parsed_with_assertions(vec![
        ParsedAssertion::new("assert", None, Span::new(11, 11, 1, 1), false, None),
        ParsedAssertion::new("assert_eq", None, Span::new(12, 12, 1, 1), true, None),
        ParsedAssertion::new("assert", None, Span::new(13, 13, 1, 1), false, Some(LiteralValue::Int(1))),
        ParsedAssertion::new("assert", None, Span::new(14, 14, 1, 1), false, Some(LiteralValue::Bool(true))),
    ]);
    assert_eq!(taut_detect(&parsed).map_or(0, |f| f.smells.len()), 2);
}

#[test]
fn detect_configured_honors_disable_and_penalty() {
    let parsed = parsed_with_one(true, None);
    let off = DetectorConfig { enabled: Some(false), penalty: None, line_threshold: None };
    assert!(tautological_assertion::detect_configured(&parsed, &off).is_empty());
    let heavy = DetectorConfig { enabled: None, penalty: Some(3), line_threshold: None };
    let smells = tautological_assertion::detect_configured(&parsed, &heavy);
    assert_eq!(smells.len(), 1);
    assert_eq!(smells[0].penalty, 3);
}

// ── surface_only_io ────────────────────────────────────────────

const SPAN: Span = Span { start_line: 2, end_line: 2, start_column: 5, end_column: 12 };

fn write(key: &str) -> BehavioralFact {
    BehavioralFact::FilesystemWrite { kind: FsCallKind::Write, path_key: key.into(), path_arg_span: SPAN }
}

fn surface(key: &str) -> BehavioralFact {
    BehavioralFact::FilesystemSurfaceCheck { kind: FsSurfaceCheckKind::Exists, path_key: key.into(), path_arg_span: SPAN }
}

fn read(key: &str) -> BehavioralFact {
    BehavioralFact::FilesystemRead { kind: FsReadKind::ReadToString, path_key: key.into(), path_arg_span: SPAN }
}

fn test_with_facts(facts: Vec<BehavioralFact>) -> ParsedTest {
    ParsedTest::new(
        TestIdentity::new(FilePath::new("a.rs"), QualifiedName::new("a::tests::t"), Span::new(1, 5, 1, 1)),
        Vec::new(),
        Vec::new(),
        3,
        Vec::new(),
        BTreeSet::new(),
        facts,
    )
}

fn sdetect(pt: &ParsedTest) -> bool {
    surface_only_io::detect(pt, &DetectorConfig::default()).is_some()
}

#[test]
fn surface_only_io_detect_returns_none_when_disabled_via_config() {
    let cfg = DetectorConfig { enabled: Some(false), penalty: None, line_threshold: None };
    let pt = test_with_facts(vec![write("lit:p"), surface("lit:p")]);
    assert!(surface_only_io::detect(&pt, &cfg).is_none());
}

#[test]
fn detect_returns_none_for_empty_facts() {
    assert!(!sdetect(&test_with_facts(Vec::new())));
}

#[test]
fn detect_returns_none_for_write_only() {
    assert!(!sdetect(&test_with_facts(vec![write("lit:p")])));
}

#[test]
fn detect_returns_none_for_surface_only() {
    assert!(!sdetect(&test_with_facts(vec![surface("lit:p")])));
}

#[test]
fn detect_returns_none_when_content_is_read_back() {
    assert!(!sdetect(&test_with_facts(vec![write("lit:p"), read("lit:p")])));
}

#[test]
fn detect_returns_none_when_write_surface_and_read_all_present() {
    assert!(!sdetect(&test_with_facts(vec![write("lit:p"), surface("lit:p"), read("lit:p")])));
}

#[test]
fn detect_fires_on_write_then_surface_check_without_read() {
    let pt = test_with_facts(vec![write("lit:p"), surface("lit:p")]);
    let finding = surface_only_io::detect(&pt, &DetectorConfig::default()).expect("write+surface fires");
    assert_eq!(finding.smells.len(), 1);
    assert_eq!(finding.smells[0].category, SmellCategory::SurfaceOnlyIo);
    assert_eq!(finding.smells[0].penalty, 6);
    assert_eq!(finding.smells[0].severity, Severity::Moderate);
    assert_eq!(finding.smells[0].actionability, Actionability::AutoRefactor);
    assert_eq!(finding.scrap_score, 6);
    assert_eq!(finding.smells[0].span, Some(Span::new(1, 5, 1, 1)));
}

#[test]
fn detect_fires_on_tempfile_surface_only() {
    let key = "tempfile-handle:0";
    let pt = test_with_facts(vec![
        BehavioralFact::FilesystemWrite { kind: FsCallKind::Tempfile, path_key: key.into(), path_arg_span: SPAN },
        surface(key),
    ]);
    assert!(sdetect(&pt));
}

#[test]
fn detect_fires_on_metadata_length_only_check() {
    let pt = test_with_facts(vec![
        write("lit:p"),
        BehavioralFact::FilesystemSurfaceCheck { kind: FsSurfaceCheckKind::Metadata, path_key: "lit:p".into(), path_arg_span: SPAN },
    ]);
    assert!(sdetect(&pt));
}

#[test]
fn surface_only_io_detect_applies_custom_penalty_override() {
    let cfg = DetectorConfig { enabled: None, penalty: Some(25), line_threshold: None };
    let pt = test_with_facts(vec![write("lit:p"), surface("lit:p")]);
    let finding = surface_only_io::detect(&pt, &cfg).expect("fires under override");
    assert_eq!(finding.smells.len(), 1);
    assert_eq!(finding.smells[0].penalty, 25);
}

#[test]
fn detect_returns_none_when_write_and_surface_are_different_keys() {
    assert!(!sdetect(&test_with_facts(vec![write("lit:a"), surface("lit:b")])));
}

#[test]
fn detect_returns_none_when_read_back_on_other_key_writes_unread_key_has_no_surface() {
    assert!(!sdetect(&test_with_facts(vec![write("lit:a"), read("lit:a"), write("lit:b")])));
}

#[test]
fn detect_fires_when_one_of_several_keys_is_surface_only() {
    assert!(sdetect(&test_with_facts(vec![write("lit:a"), read("lit:a"), write("lit:b"), surface("lit:b")])));
}

#[test]
fn detect_returns_none_for_distinct_opaque_keys() {
    assert!(!sdetect(&test_with_facts(vec![write("opaque:0"), surface("opaque:1")])));
}

#[test]
fn detect_fires_even_when_an_assertion_is_present() {
    let mut pt = test_with_facts(vec![write("lit:p"), surface("lit:p")]);
    pt.assertions.push(ParsedAssertion::new("assert", Some("p.exists()".into()), Span::new(3, 3, 1, 1), false, None));
    assert!(has_positive_check(&pt));
    assert!(sdetect(&pt));
}

#[test]
fn proptest_adding_read_for_all_keys_suppresses() {
    let pt = test_with_facts(vec![write("k0"), surface("k0"), write("k1"), surface("k1")]);
    assert!(sdetect(&pt));
    let mut pt_read = pt.clone();
    for k in ["k0", "k1", "opaque:0", "opaque:1"] {
        pt_read.behavioral_facts.push(read(k));
    }
    assert!(!sdetect(&pt_read), "a read-back on every key must disarm surface-only-io");
}

#[test]
fn surface_check_before_write_still_fires() {
    assert!(sdetect(&test_with_facts(vec![surface("lit:p"), write("lit:p")])));
}
