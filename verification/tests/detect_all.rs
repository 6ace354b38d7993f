use scrap_core::detectors::{detect_all, detect_all_with};
use scrap_core::domain::behavioral_fact::{BehavioralFact, ResultDiscardKind};
use scrap_core::domain::config::{
    override_applies, override_matches, resolve_detector_for_path, DetectorConfig, FileConfig, Override,
};
use scrap_core::domain::literal_value::LiteralValue;
use scrap_core::domain::parsed::{ParsedAssertion, ParsedTest};
use scrap_core::domain::smell::SmellCategory;
use scrap_core::domain::types::{FilePath, QualifiedName, Span, TestIdentity};
use std::collections::BTreeSet;

fn test_with(assertions: Vec<ParsedAssertion>, lines: u32, facts: Vec<BehavioralFact>) -> ParsedTest {
    ParsedTest::new(
        TestIdentity::new(FilePath::new("a.rs"), QualifiedName::new("a::tests::t"), Span::new(1, 40, 1, 1)),
        Vec::new(),
        assertions,
        lines,
        Vec::new(),
        BTreeSet::new(),
        facts,
    )
}

fn categories(parsed: &ParsedTest, cfg: &FileConfig) -> Vec<SmellCategory> {
    detect_all(parsed, cfg).iter().map(|s| s.category).collect()
}

#[test]
fn detect_all_stacks_smells_in_detector_order() {
    let pt = test_with(vec![], 35, vec![BehavioralFact::ResultDiscarded { kind: ResultDiscardKind::Call }]);
    assert_eq!(
        categories(&pt, &FileConfig::default()),
        vec![SmellCategory::ZeroAssertion, SmellCategory::NoOpIo, SmellCategory::LargeExample]
    );
}

#[test]
fn detect_all_clean_test_has_no_smells() {
    let pt = test_with(vec![ParsedAssertion::new("assert_eq", None, Span::new(2, 2, 1, 1), false, None)], 3, vec![]);
    assert!(detect_all(&pt, &FileConfig::default()).is_empty());
}

#[test]
fn detect_all_reports_tautologies_per_assertion() {
    let pt = test_with(
        vec![
            ParsedAssertion::new("assert_eq", None, Span::new(2, 2, 1, 1), true, None),
            ParsedAssertion::new("assert", None, Span::new(3, 3, 1, 1), false, Some(LiteralValue::Bool(true))),
        ],
        3,
        vec![],
    );
    assert_eq!(categories(&pt, &FileConfig::default()), vec![SmellCategory::TautologicalAssertion; 2]);
}

#[test]
fn detect_all_honours_a_disabled_detector() {
    let mut cfg = FileConfig::default();
    cfg.detectors.push((SmellCategory::ZeroAssertion, DetectorConfig { enabled: Some(false), penalty: None, line_threshold: None }));
    let pt = test_with(vec![], 3, vec![]);
    assert!(detect_all(&pt, &cfg).is_empty());
}

fn override_disabling_zero(glob: &str) -> FileConfig {
    let mut cfg = FileConfig::default();
    cfg.overrides.push(Override {
        match_globs: vec![glob.to_string()],
        detectors: vec![(SmellCategory::ZeroAssertion, DetectorConfig { enabled: Some(false), penalty: None, line_threshold: None })],
    });
    cfg
}

#[test]
fn detect_all_with_applies_only_matching_overrides() {
    let pt = test_with(vec![], 3, vec![]);
    let cfg = override_disabling_zero("tests/**");
    assert_eq!(detect_all_with(&pt, &cfg, &vec![true]).len(), 0);
    assert_eq!(detect_all_with(&pt, &cfg, &vec![false]).len(), 1);
}

#[test]
fn detect_all_resolves_overrides_by_file_glob() {
    let pt = test_with(vec![], 3, vec![]);
    assert!(detect_all(&pt, &override_disabling_zero("*.rs")).is_empty(), "a.rs matches *.rs");
    assert_eq!(categories(&pt, &override_disabling_zero("tests/**")), vec![SmellCategory::ZeroAssertion]);
}

#[test]
fn override_applies_when_some_pattern_matches_the_path() {
    let o = Override { match_globs: vec!["[bad".into(), "tests/**".into(), "src/*.rs".into()], detectors: vec![] };
    assert!(override_applies(&o, "src/lib.rs"));
    assert!(override_applies(&o, "tests/it/a.rs"));
    assert!(!override_applies(&o, "benches/b.rs"));
    let broken = Override { match_globs: vec!["[bad".into()], detectors: vec![] };
    assert!(!override_applies(&broken, "[bad"));
}

#[test]
fn resolve_detector_for_path_last_matching_override_wins() {
    let penalty = |p: u32| DetectorConfig { enabled: None, penalty: Some(p), line_threshold: None };
    let cfg = FileConfig {
        detectors: vec![(SmellCategory::ZeroAssertion, penalty(1))],
        overrides: vec![
            Override { match_globs: vec!["src/**".into()], detectors: vec![(SmellCategory::ZeroAssertion, penalty(2))] },
            Override { match_globs: vec!["benches/**".into()], detectors: vec![(SmellCategory::ZeroAssertion, penalty(3))] },
            Override { match_globs: vec!["src/*.rs".into()], detectors: vec![(SmellCategory::ZeroAssertion, penalty(4))] },
        ],
        ..FileConfig::default()
    };
    assert_eq!(override_matches(&cfg, "src/lib.rs"), vec![true, false, true]);
    assert_eq!(resolve_detector_for_path(&cfg, "src/lib.rs", SmellCategory::ZeroAssertion).penalty, Some(4));
    assert_eq!(resolve_detector_for_path(&cfg, "src/readme.md", SmellCategory::ZeroAssertion).penalty, Some(2));
    assert_eq!(resolve_detector_for_path(&cfg, "tests/t.rs", SmellCategory::ZeroAssertion).penalty, Some(1));
}
