use scrap_core::adapters::reporters::json::{build_view, is_summarizable, EmitOptions};
use scrap_core::domain::classification::{Actionability, Severity};
use scrap_core::domain::finding::Finding;
use scrap_core::domain::report::{FileReport, Report};
use scrap_core::domain::smell::{Smell, SmellCategory};
use scrap_core::domain::types::{FilePath, QualifiedName, Span, TestIdentity};
use std::collections::BTreeMap;

fn finding_at(path: &str, name: &str, penalty: u32) -> Finding {
    let test = TestIdentity::new(FilePath::new(path), QualifiedName::new(name), Span::new(1, 5, 1, 1));
    if penalty == 0 {
        Finding::new(test, vec![])
    } else {
        Finding::new(
            test,
            vec![Smell::new(SmellCategory::ZeroAssertion, Severity::High, Actionability::AutoRefactor, penalty, None)],
        )
    }
}

fn report_with(findings: Vec<(&str, &str, u32)>) -> Report {
    let mut by_path: BTreeMap<&str, Vec<Finding>> = BTreeMap::new();
    for (path, name, penalty) in findings {
        by_path.entry(path).or_default().push(finding_at(path, name, penalty));
    }
    let files = by_path.into_iter().map(|(path, fs)| FileReport::new(FilePath::new(path), fs)).collect();
    Report { files, ..Report::default() }
}

#[test]
fn view_top_truncates_and_sets_truncated_flag() {
    let report = report_with(vec![("a.rs", "a::tests::t1", 10), ("b.rs", "b::tests::t2", 10), ("c.rs", "c::tests::t3", 10)]);
    let options = EmitOptions { top: Some(2), only_failing: false };
    let view = build_view(&report, &options);
    assert_eq!(view.shown.len(), 2, "top=2 truncates to 2");
    assert!(view.truncated, "truncated=true when shown < eligible");
    assert_eq!(view.eligible_count, 3, "eligible_count = total pre-truncate");
}

#[test]
fn view_top_no_truncate_when_n_gte_eligible() {
    let report = report_with(vec![("a.rs", "a::tests::t1", 10), ("b.rs", "b::tests::t2", 10), ("c.rs", "c::tests::t3", 10)]);
    let options = EmitOptions { top: Some(5), only_failing: false };
    let view = build_view(&report, &options);
    assert_eq!(view.shown.len(), 3, "top=5 keeps all 3");
    assert!(!view.truncated, "truncated=false when shown >= eligible");
    assert_eq!(view.eligible_count, 3);
}

#[test]
fn view_only_failing_filters_zero_score() {
    let report = report_with(vec![("a.rs", "a::tests::t1", 10), ("b.rs", "b::tests::t2", 0), ("c.rs", "c::tests::t3", 4)]);
    let options = EmitOptions { top: None, only_failing: true };
    let view = build_view(&report, &options);
    assert_eq!(view.shown.len(), 2, "zero-score filtered out");
    assert!(view.shown.iter().all(|f| f.scrap_score > 0), "all shown have scrap_score > 0");
    let total_in_result: usize = report.files.iter().map(|f| f.findings.len()).sum();
    assert_eq!(total_in_result, 3, "result.files unfiltered");
}

#[test]
fn view_combined_filter_then_truncate() {
    let report = report_with(vec![("a.rs", "a::tests::t1", 10), ("b.rs", "b::tests::t2", 0), ("c.rs", "c::tests::t3", 4)]);
    let options = EmitOptions { top: Some(1), only_failing: true };
    let view = build_view(&report, &options);
    assert_eq!(view.eligible_count, 2, "post-filter count = 2 (zero-score dropped)");
    assert_eq!(view.shown.len(), 1, "then top=1 truncates to 1");
    assert!(view.truncated, "1 < 2 -> truncated");
}

#[test]
fn view_eligible_count_is_post_filter_pre_truncate() {
    let report = report_with(vec![
        ("a.rs", "a::tests::t1", 10),
        ("b.rs", "b::tests::t2", 0),
        ("c.rs", "c::tests::t3", 4),
        ("d.rs", "d::tests::t4", 0),
        ("e.rs", "e::tests::t5", 6),
    ]);
    let options = EmitOptions { top: Some(2), only_failing: true };
    let view = build_view(&report, &options);
    assert_eq!(view.eligible_count, 3);
    assert_eq!(view.shown.len(), 2);
    assert!(view.truncated);
}

#[test]
fn emit_options_default_is_no_filter_no_truncate() {
    let opts = EmitOptions::default();
    assert!(opts.top.is_none(), "default top = None");
    assert!(!opts.only_failing, "default only_failing = false");
}

#[test]
fn view_default_options_passes_through_findings() {
    let report = report_with(vec![("a.rs", "a::tests::t1", 10), ("b.rs", "b::tests::t2", 0)]);
    let view = build_view(&report, &EmitOptions::default());
    assert_eq!(view.shown.len(), 2, "no filter - all findings present");
    assert_eq!(view.eligible_count, 2);
    assert!(!view.truncated);
    assert_eq!(view.spec.top, None);
    assert!(!view.spec.only_failing);
}

#[test]
fn view_summary_counts_only_shown_findings() {
    let report = report_with(vec![("a.rs", "a::t1", 10), ("b.rs", "b::t2", 4), ("c.rs", "c::t3", 6)]);
    let view = build_view(&report, &EmitOptions { top: Some(2), only_failing: false });
    assert_eq!(view.shown_summary.total_tests, 2);
    assert_eq!(view.shown_summary.total_files, 2);
    assert_eq!(view.shown_summary.scrap_score_sum, 14);
    assert_eq!(view.shown_summary.max_scrap_score, 10);
    assert_eq!(view.shown_summary.distribution.smell_count(SmellCategory::ZeroAssertion), 2);
}

#[test]
fn view_keeps_report_order() {
    let report = report_with(vec![("a.rs", "a::t1", 4), ("b.rs", "b::t2", 10)]);
    let view = build_view(&report, &EmitOptions::default());
    assert_eq!(view.shown[0].test.qualified_name.as_str(), "a::t1");
    assert_eq!(view.shown[1].test.qualified_name.as_str(), "b::t2");
}

#[test]
fn summarizable_requires_the_score_sum_to_fit() {
    let mut report = report_with(vec![("a.rs", "a::t1", 10), ("b.rs", "b::t2", 0)]);
    assert!(is_summarizable(&report));
    report.files[0].findings[0].scrap_score = 3;
    assert!(is_summarizable(&report));
    report.files[0].findings[0].scrap_score = u128::MAX;
    assert!(is_summarizable(&report));
    report.files[1].findings[0].scrap_score = 1;
    assert!(!is_summarizable(&report));
}
