use scrap_core::domain::classification::{Actionability, Severity};
use scrap_core::domain::finding::Finding;
use scrap_core::domain::report::{Distribution, FileReport, Report, Summary};
use scrap_core::domain::smell::{Smell, SmellCategory};
use scrap_core::domain::types::{FilePath, QualifiedName, Span, TestIdentity};

fn finding_in(file: &str, category: SmellCategory, severity: Severity, penalty: u32) -> Finding {
    let test = TestIdentity::new(FilePath::new(file), QualifiedName::new("a::tests::t"), Span::new(1, 5, 1, 1));
    Finding::new(test, vec![Smell::new(category, severity, Actionability::AutoRefactor, penalty, None)])
}

const CATS: [SmellCategory; 5] = [
    SmellCategory::ZeroAssertion,
    SmellCategory::TautologicalAssertion,
    SmellCategory::NoOpIo,
    SmellCategory::SurfaceOnlyIo,
    SmellCategory::LargeExample,
];
const SEVS: [Severity; 3] = [Severity::Low, Severity::Moderate, Severity::High];

#[test]
fn distribution_records_both_axes() {
    let mut d = Distribution::new();
    d.record(SmellCategory::ZeroAssertion, Severity::High);
    d.record(SmellCategory::ZeroAssertion, Severity::High);
    d.record(SmellCategory::LargeExample, Severity::Low);
    assert_eq!(d.smell_count(SmellCategory::ZeroAssertion), 2);
    assert_eq!(d.smell_count(SmellCategory::LargeExample), 1);
    assert_eq!(d.severity_count(Severity::High), 2);
    assert_eq!(d.severity_count(Severity::Low), 1);
    assert_eq!(d.total(), 3);
}

#[test]
fn distribution_axes_have_equal_totals() {
    let mut d = Distribution::new();
    d.record(SmellCategory::NoOpIo, Severity::Moderate);
    d.record(SmellCategory::SurfaceOnlyIo, Severity::Moderate);
    let smell_total: u32 = d.by_smell.iter().map(|(_, n)| n).sum();
    let sev_total: u32 = d.by_severity.iter().map(|(_, n)| n).sum();
    assert_eq!(smell_total, sev_total);
}

#[test]
fn distribution_lists_recorded_keys_in_declaration_order() {
    let mut d = Distribution::new();
    d.record(SmellCategory::LargeExample, Severity::Low);
    d.record(SmellCategory::ZeroAssertion, Severity::High);
    d.record(SmellCategory::LargeExample, Severity::Low);
    assert_eq!(d.by_smell, vec![(SmellCategory::ZeroAssertion, 1), (SmellCategory::LargeExample, 2)]);
    assert_eq!(d.by_severity, vec![(Severity::Low, 2), (Severity::High, 1)]);
    assert_eq!(d.smell_count(SmellCategory::NoOpIo), 0);
}

#[test]
fn report_default_is_empty_and_failing_off() {
    let r = Report::default();
    assert!(r.files.is_empty());
    assert_eq!(r.summary.total_tests, 0);
    assert!(!r.passed);
}

#[test]
fn summary_from_findings_aggregates_correctly() {
    let mut f1 = finding_in("a.rs", SmellCategory::ZeroAssertion, Severity::High, 10);
    f1.exceeds_threshold = true;
    let f2 = finding_in("b.rs", SmellCategory::LargeExample, Severity::Low, 4);
    let f3_test = TestIdentity::new(FilePath::new("b.rs"), QualifiedName::new("b::tests::u"), Span::new(2, 6, 1, 1));
    let f3 = Finding::new(f3_test, vec![]);
    let findings = [f1, f2, f3];
    let refs: Vec<&Finding> = findings.iter().collect();
    let s = Summary::from_findings(&refs);
    assert_eq!(s.total_tests, 3, "three findings counted");
    assert_eq!(s.total_files, 2, "two distinct files (a.rs, b.rs)");
    assert_eq!(s.exceeding_threshold, 1, "only f1 exceeds");
    assert_eq!(s.max_scrap_score, 10, "max_scrap_score = 10");
    let avg = s.scrap_score_sum as f64 / s.total_tests as f64;
    let avg_expected = (10.0_f64 + 4.0 + 0.0) / 3.0;
    assert!((avg - avg_expected).abs() < f64::EPSILON, "average = (10+4+0)/3");
    assert_eq!(s.distribution.smell_count(SmellCategory::ZeroAssertion), 1, "1 ZeroAssertion smell");
    assert_eq!(s.distribution.smell_count(SmellCategory::LargeExample), 1, "1 LargeExample smell");
    assert_eq!(s.distribution.severity_count(Severity::High), 1, "1 High severity");
    assert_eq!(s.distribution.severity_count(Severity::Low), 1, "1 Low severity");
}

#[test]
fn summary_from_findings_empty_iter_yields_default() {
    let s = Summary::from_findings(&Vec::new());
    assert_eq!(s, Summary::default());
}

#[test]
fn distribution_total_equals_record_count() {
    let mut d = Distribution::new();
    let mut n = 0usize;
    for (i, cat) in CATS.iter().enumerate() {
        for (j, sev) in SEVS.iter().enumerate() {
            for _ in 0..(i + j) {
                d.record(*cat, *sev);
                n += 1;
            }
        }
    }
    assert_eq!(d.total() as usize, n);
    let sev_total: u32 = d.by_severity.iter().map(|(_, c)| c).sum();
    assert_eq!(d.total(), sev_total);
}

#[test]
fn file_report_keeps_its_findings() {
    let fr = FileReport::new(FilePath::new("src/lib.rs"), vec![finding_in("src/lib.rs", SmellCategory::ZeroAssertion, Severity::High, 10)]);
    let copy = fr.clone();
    assert_eq!(fr, copy);
    assert_eq!(fr.findings[0].scrap_score, 10);
}
