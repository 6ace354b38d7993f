use scrap_core::adapter_meta::AdapterMeta;
use scrap_core::adapters::reporters::json::EmitOptions;
use scrap_core::adapters::reporters::markdown::{build_model, end_with_one_newline, md_cell, severity_label};
use scrap_core::domain::classification::{Actionability, Severity};
use scrap_core::domain::finding::Finding;
use scrap_core::domain::report::{finding_refs, FileReport, Report, Summary};
use scrap_core::domain::smell::{Smell, SmellCategory};
use scrap_core::domain::types::{FilePath, QualifiedName, Span, TestIdentity};

fn meta() -> AdapterMeta {
    AdapterMeta {
        tool_name: "test-adapter",
        language: "rust",
        tool_version: "0.1.0",
        long_version: "0.1.0 (test)",
        about: "markdown test fixture",
        long_about: "Test-fixture AdapterMeta for the markdown reporter.",
        after_help: "",
        extensions: &["rs"],
        tool_info_uri: "https://example.invalid/test-adapter",
        rule_help_uri: "https://example.invalid/test-adapter#rules",
        config_file_name: "test-adapter.toml",
        default_excludes: &[],
        parse_hint: "hint",
    }
}

fn smell(category: SmellCategory, severity: Severity, penalty: u32, msg: &str) -> Smell {
    Smell::with_message(category, severity, Actionability::AutoRefactor, penalty, Some(Span::new(7, 9, 5, 2)), msg)
}

fn finding(path: &str, name: &str, smells: Vec<Smell>) -> Finding {
    let test = TestIdentity::new(FilePath::new(path), QualifiedName::new(name), Span::new(3, 20, 1, 2));
    Finding::new(test, smells)
}

fn report(findings_by_file: Vec<(&str, Vec<Finding>)>) -> Report {
    let files: Vec<FileReport> =
        findings_by_file.into_iter().map(|(path, fs)| FileReport::new(FilePath::new(path), fs)).collect();
    let summary = Summary::from_findings(&finding_refs(&files));
    Report { files, summary, passed: false }
}

fn representative_report() -> Report {
    report(vec![
        (
            "src/a.rs",
            vec![
                finding(
                    "src/a.rs",
                    "tests::no_asserts",
                    vec![smell(SmellCategory::ZeroAssertion, Severity::High, 10, "Add assertions on observable behavior.")],
                ),
                finding(
                    "src/a.rs",
                    "tests::pipe|name",
                    vec![smell(SmellCategory::LargeExample, Severity::Low, 4, "Split the example | extract helpers.")],
                ),
            ],
        ),
        ("src/b.rs", vec![finding("src/b.rs", "tests::clean", vec![])]),
    ])
}

#[test]
fn pipe_in_dynamic_cells_is_escaped() {
    let model = build_model(&representative_report(), &meta(), &EmitOptions::default());
    assert!(model.rows.iter().any(|r| r.test_name == "tests::pipe\\|name"));
    assert!(model.rows.iter().any(|r| r.suggestion == "Split the example \\| extract helpers."));
}

#[test]
fn truncation_discloses_shown_of_eligible() {
    let opts = EmitOptions { top: Some(1), only_failing: false };
    let model = build_model(&representative_report(), &meta(), &opts);
    assert!(model.truncated);
    assert_eq!(model.shown_count, 1);
    assert_eq!(model.eligible_count, 3);
}

#[test]
fn summary_block_is_result_side_even_when_view_truncates() {
    let opts = EmitOptions { top: Some(1), only_failing: false };
    let model = build_model(&representative_report(), &meta(), &opts);
    let pairs: Vec<(&str, u32)> = model.smell_rows.iter().map(|r| (r.name, r.count)).collect();
    assert!(pairs.contains(&("zero_assertion", 1)), "by-smell: {pairs:?}");
    assert!(pairs.contains(&("large_example", 1)), "by-smell: {pairs:?}");
}

#[test]
fn model_rows_use_smell_span_location_and_labels() {
    let model = build_model(&representative_report(), &meta(), &EmitOptions::default());
    assert_eq!(model.rows.len(), 2, "clean test contributes no row");
    let first = &model.rows[0];
    assert_eq!(first.location, "src/a.rs:7");
    assert_eq!(first.test_name, "tests::no_asserts");
    assert_eq!(first.smell, "zero_assertion");
    assert_eq!(first.severity, "High");
    assert_eq!(first.penalty, 10);
    assert_eq!(model.pass_fail, "FAIL");
    assert_eq!(model.max_score, "10.0");
    assert_eq!(model.total_tests, 3);
    assert_eq!(model.total_files, 2);
    assert!(model.has_rows && model.has_distribution && !model.truncated);
}

#[test]
fn model_only_failing_drops_clean_tests_from_eligible() {
    let opts = EmitOptions { top: None, only_failing: true };
    let model = build_model(&representative_report(), &meta(), &opts);
    assert_eq!(model.eligible_count, 2);
    assert_eq!(model.shown_count, 2);
}

#[test]
fn empty_report_model_has_no_rows() {
    let model = build_model(&report(vec![]), &meta(), &EmitOptions::default());
    assert!(!model.has_rows);
    assert!(!model.has_distribution);
    assert_eq!(model.max_score, "0.0");
    assert_eq!(model.tool_name, "test-adapter");
}

#[test]
fn md_cell_escapes_pipes_and_flattens_line_breaks() {
    assert_eq!(md_cell("a|b\r\nc"), "a\\|b  c");
    assert_eq!(md_cell("plain"), "plain");
}

#[test]
fn severity_labels_are_capitalized() {
    assert_eq!(severity_label(Severity::Low), "Low");
    assert_eq!(severity_label(Severity::Moderate), "Moderate");
    assert_eq!(severity_label(Severity::High), "High");
}

#[test]
fn end_with_one_newline_leaves_exactly_one_final_newline() {
    assert_eq!(end_with_one_newline("# r\n\n\n"), "# r\n");
    assert_eq!(end_with_one_newline("# r"), "# r\n");
    assert_eq!(end_with_one_newline("# r\n"), "# r\n");
    assert_eq!(end_with_one_newline(""), "\n");
}
