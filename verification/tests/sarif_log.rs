use scrap_core::adapter_meta::AdapterMeta;
use scrap_core::adapters::reporters::sarif::constants::rule_description;
use scrap_core::adapters::reporters::sarif::{build_log, level_for, region_for_span, SARIF_VERSION, SCHEMA_URI};
use scrap_core::domain::classification::{Actionability, Severity};
use scrap_core::domain::finding::Finding;
use scrap_core::domain::report::{FileReport, Report};
use scrap_core::domain::smell::{Smell, SmellCategory};
use scrap_core::domain::types::{FilePath, QualifiedName, Span, TestIdentity};
use std::collections::BTreeMap;

fn test_meta() -> AdapterMeta {
    AdapterMeta {
        tool_name: "test-adapter",
        language: "rust",
        tool_version: "0.1.0",
        long_version: "0.1.0 (test 2026-05-27)",
        about: "sarif-test fixture",
        long_about: "Test-fixture AdapterMeta for the SARIF reporter unit tests.",
        after_help: "",
        extensions: &["rs"],
        tool_info_uri: "https://example.invalid/test-adapter",
        rule_help_uri: "https://example.invalid/test-adapter#rules",
        config_file_name: "test-adapter.toml",
        default_excludes: &[],
        parse_hint: "ensure --src points at a workspace with test files",
    }
}

fn finding_with(path: &str, name: &str, test_span: Span, smells: Vec<Smell>) -> Finding {
    let test = TestIdentity::new(FilePath::new(path), QualifiedName::new(name), test_span);
    Finding::new(test, smells)
}

fn report_with(findings: Vec<Finding>) -> Report {
    let mut by_path: BTreeMap<String, Vec<Finding>> = BTreeMap::new();
    for f in findings {
        let key = f.test.file_path.as_path().to_string();
        by_path.entry(key).or_default().push(f);
    }
    let files = by_path.into_iter().map(|(path, fs)| FileReport::new(FilePath::new(&path), fs)).collect();
    Report { files, ..Report::default() }
}

fn smell(category: SmellCategory, severity: Severity, span: Option<Span>) -> Smell {
    Smell::new(category, severity, Actionability::AutoRefactor, 10, span)
}

const ALL: [SmellCategory; 5] = [
    SmellCategory::ZeroAssertion,
    SmellCategory::TautologicalAssertion,
    SmellCategory::NoOpIo,
    SmellCategory::SurfaceOnlyIo,
    SmellCategory::LargeExample,
];

#[test]
fn every_category_has_a_rule_description() {
    for category in ALL {
        let desc = rule_description(category);
        assert!(!desc.name.is_empty(), "{category:?} name must be non-empty");
        assert!(!desc.short_description.is_empty(), "{category:?} short_description must be non-empty");
        assert!(!desc.full_description.is_empty(), "{category:?} full_description must be non-empty");
    }
}

#[test]
fn rule_name_is_pascal_case_per_sarif_convention() {
    assert_eq!(rule_description(SmellCategory::ZeroAssertion).name, "ZeroAssertion");
    assert_eq!(SmellCategory::ZeroAssertion.as_wire_str(), "zero_assertion");
}

#[test]
fn top_level_shape_is_sarif_2_1_0() {
    let log = build_log(&report_with(vec![]), &test_meta());
    assert_eq!(log.schema, SCHEMA_URI);
    assert_eq!(log.version, "2.1.0");
    assert_eq!(SARIF_VERSION, "2.1.0");
    assert_eq!(log.runs.len(), 1);
}

#[test]
fn driver_name_comes_from_adapter_meta_not_a_literal() {
    let log = build_log(&report_with(vec![]), &test_meta());
    let driver = &log.runs[0].tool.driver;
    assert_eq!(driver.name, "test-adapter");
    assert_eq!(driver.version, "0.1.0");
    assert_eq!(driver.information_uri, "https://example.invalid/test-adapter");
}

#[test]
fn empty_report_produces_empty_results_array() {
    let log = build_log(&report_with(vec![]), &test_meta());
    assert_eq!(log.runs[0].results.len(), 0);
}

#[test]
fn rules_present_for_every_category_even_when_no_results() {
    let log = build_log(&report_with(vec![]), &test_meta());
    let rules = &log.runs[0].tool.driver.rules;
    assert_eq!(rules.len(), 5, "one rule per SmellCategory variant");
    let ids: Vec<&str> = rules.iter().map(|r| r.id.as_str()).collect();
    assert!(ids.contains(&"zero_assertion"));
    assert!(ids.contains(&"large_example"));
    assert_eq!(rules[0].help_uri, "https://example.invalid/test-adapter#rules");
}

#[test]
fn rule_id_is_smell_category_wire_string() {
    let log = build_log(&report_with(vec![]), &test_meta());
    for (rule, cat) in log.runs[0].tool.driver.rules.iter().zip(ALL) {
        assert!(!rule.id.chars().next().unwrap().is_uppercase(), "rule id must be snake_case, got `{}`", rule.id);
        assert_eq!(rule.id, cat.as_wire_str());
        assert_eq!(rule.name, rule_description(cat).name);
    }
}

#[test]
fn one_result_per_smell_not_per_finding() {
    let finding = finding_with(
        "src/lib.rs",
        "tests::it",
        Span::new(1, 10, 1, 1),
        vec![smell(SmellCategory::ZeroAssertion, Severity::High, None), smell(SmellCategory::LargeExample, Severity::Low, None)],
    );
    let log = build_log(&report_with(vec![finding]), &test_meta());
    let results = &log.runs[0].results;
    assert_eq!(results.len(), 2, "two smells -> two results");
    let rule_ids: Vec<&str> = results.iter().map(|r| r.rule_id.as_str()).collect();
    assert!(rule_ids.contains(&"zero_assertion"));
    assert!(rule_ids.contains(&"large_example"));
}

#[test]
fn zero_smell_finding_emits_no_result() {
    let finding = finding_with("src/lib.rs", "tests::it", Span::new(1, 5, 1, 1), vec![]);
    let log = build_log(&report_with(vec![finding]), &test_meta());
    assert_eq!(log.runs[0].results.len(), 0);
}

#[test]
fn severity_maps_to_sarif_level() {
    let report = report_with(vec![
        finding_with("a.rs", "a::t", Span::new(1, 2, 1, 1), vec![smell(SmellCategory::ZeroAssertion, Severity::High, None)]),
        finding_with("b.rs", "b::t", Span::new(1, 2, 1, 1), vec![smell(SmellCategory::NoOpIo, Severity::Moderate, None)]),
        finding_with("c.rs", "c::t", Span::new(1, 2, 1, 1), vec![smell(SmellCategory::LargeExample, Severity::Low, None)]),
    ]);
    let log = build_log(&report, &test_meta());
    let mut levels: Vec<String> = log.runs[0].results.iter().map(|r| r.level.clone()).collect();
    levels.sort();
    assert_eq!(levels, vec!["error", "note", "warning"]);
    assert_eq!(level_for(Severity::High), "error");
}

#[test]
fn region_uses_smell_span_when_present() {
    let finding = finding_with(
        "src/lib.rs",
        "tests::it",
        Span::new(1, 20, 1, 1),
        vec![smell(SmellCategory::TautologicalAssertion, Severity::High, Some(Span::new(7, 7, 5, 18)))],
    );
    let log = build_log(&report_with(vec![finding]), &test_meta());
    let region = &log.runs[0].results[0].locations[0].physical_location.region;
    assert_eq!(region.start_line, 7, "uses smell span line, not test span");
    assert_eq!(region.end_line, 7);
    assert_eq!(region.start_column, 5, "startColumn passes through (1-based)");
    assert_eq!(region.end_column, 19, "endColumn = span.end_column + 1 (exclusive end)");
}

#[test]
fn region_falls_back_to_test_span_when_smell_span_none() {
    let finding = finding_with(
        "src/lib.rs",
        "tests::it",
        Span::new(3, 9, 2, 6),
        vec![smell(SmellCategory::ZeroAssertion, Severity::High, None)],
    );
    let log = build_log(&report_with(vec![finding]), &test_meta());
    let region = &log.runs[0].results[0].locations[0].physical_location.region;
    assert_eq!(region.start_line, 3);
    assert_eq!(region.end_line, 9);
    assert_eq!(region.start_column, 2);
    assert_eq!(region.end_column, 7, "test span end_column 6 + 1");
}

#[test]
fn region_end_column_saturates_at_u32_max() {
    let region = region_for_span(Span::new(1, 1, 1, u32::MAX));
    assert_eq!(region.end_column, u32::MAX);
}

#[test]
fn artifact_uri_is_the_relative_file_path() {
    let finding = finding_with(
        "crates/foo/src/bar.rs",
        "foo::tests::it",
        Span::new(1, 2, 1, 1),
        vec![smell(SmellCategory::ZeroAssertion, Severity::High, None)],
    );
    let log = build_log(&report_with(vec![finding]), &test_meta());
    assert_eq!(log.runs[0].results[0].locations[0].physical_location.artifact_location.uri, "crates/foo/src/bar.rs");
}

#[test]
fn partial_fingerprint_is_path_category_qualified_name_triple() {
    let finding = finding_with(
        "src/lib.rs",
        "mod::tests::it_works",
        Span::new(1, 2, 1, 1),
        vec![smell(SmellCategory::ZeroAssertion, Severity::High, None)],
    );
    let log = build_log(&report_with(vec![finding]), &test_meta());
    assert_eq!(log.runs[0].results[0].partial_fingerprints.test_identity, "src/lib.rs:zero_assertion:mod::tests::it_works");
}

#[test]
fn message_text_is_the_smell_actionability_message() {
    let finding = finding_with("src/lib.rs", "tests::it", Span::new(1, 2, 1, 1), vec![smell(SmellCategory::ZeroAssertion, Severity::High, None)]);
    let log = build_log(&report_with(vec![finding]), &test_meta());
    assert_eq!(log.runs[0].results[0].message.text, Smell::default_message(SmellCategory::ZeroAssertion));
}

#[test]
fn every_region_matches_its_span_on_samples() {
    for (start, len, col, col_len) in [(1u32, 0u32, 1u32, 0u32), (9_999, 999, 499, 499), (42, 3, 7, 11)] {
        let span = Span::new(start, start + len, col, col + col_len);
        let region = region_for_span(span);
        assert_eq!(region.start_line, start);
        assert_eq!(region.end_line, start + len);
        assert_eq!(region.start_column, col);
        assert_eq!(region.end_column, col + col_len + 1);
    }
}
