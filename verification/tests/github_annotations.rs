use scrap_core::adapters::reporters::github_annotations::{
    gha_escape, gha_escape_property, relative_or_unchanged, relativize_path, render,
};
use scrap_core::domain::classification::{Actionability, Severity};
use scrap_core::domain::finding::Finding;
use scrap_core::domain::report::{FileReport, Report};
use scrap_core::domain::smell::{Smell, SmellCategory};
use scrap_core::domain::types::{FilePath, QualifiedName, Span, TestIdentity};
use std::collections::BTreeMap;

fn finding_with(path: &str, name: &str, test_span: Span, smells: Vec<Smell>) -> Finding {
    let test = TestIdentity::new(FilePath::new(path), QualifiedName::new(name), test_span);
    Finding::new(test, smells)
}

fn report_with(findings: Vec<Finding>) -> Report {
    let mut by_path: BTreeMap<String, Vec<Finding>> = BTreeMap::new();
    for f in findings {
        let key = f.test.file_path.as_path().to_string();
        by_path.entry(key).or_default().push(f);
    }
    let files = by_path.into_iter().map(|(path, fs)| FileReport::new(FilePath::new(&path), fs)).collect();
    Report { files, ..Report::default() }
}

fn smell_with(category: SmellCategory, severity: Severity, penalty: u32, span: Option<Span>, message: &str) -> Smell {
    Smell::with_message(category, severity, Actionability::AutoRefactor, penalty, span, message)
}

fn render_no_cwd(report: &Report, limit: usize) -> String {
    render(report, limit, None)
}

fn one(path: &str, name: &str, cat: SmellCategory, sev: Severity, pen: u32, msg: &str) -> Finding {
    finding_with(path, name, Span::new(1, 2, 1, 1), vec![smell_with(cat, sev, pen, None, msg)])
}

#[test]
fn empty_report_produces_empty_output() {
    let report = report_with(vec![]);
    assert_eq!(render_no_cwd(&report, usize::MAX), "");
}

#[test]
fn single_smell_emits_one_warning_with_file_line_col() {
    let finding = finding_with(
        "src/lib.rs",
        "tests::it",
        Span::new(9, 13, 5, 2),
        vec![smell_with(SmellCategory::ZeroAssertion, Severity::High, 10, None, "Add assertions.")],
    );
    let report = report_with(vec![finding]);
    let out = render_no_cwd(&report, usize::MAX);
    let lines: Vec<&str> = out.lines().collect();
    assert_eq!(lines.len(), 1, "one warning line, got {lines:?}");
    let line = lines[0];
    assert!(line.starts_with("::warning "), "wrong prefix: {line}");
    assert!(line.contains("file=src/lib.rs"), "missing file: {line}");
    assert!(line.contains("line=9"), "uses test span start_line: {line}");
    assert!(line.contains("col=5"), "uses test span start_column: {line}");
    assert!(line.contains("title=zero_assertion (penalty 10)"), "title names the smell + penalty: {line}");
    assert!(line.ends_with("::Add assertions."), "message tail: {line}");
}

#[test]
fn title_property_is_escaped_and_precedes_message_delimiter() {
    let finding = finding_with(
        "src/lib.rs",
        "tests::it",
        Span::new(3, 4, 1, 2),
        vec![smell_with(SmellCategory::LargeExample, Severity::Low, 4, None, "shrink")],
    );
    let report = report_with(vec![finding]);
    let out = render_no_cwd(&report, usize::MAX);
    let line = out.lines().next().expect("one line");
    let (props, message) = line.rsplit_once("::").expect("workflow-command delimiter present");
    assert!(props.contains("title=large_example (penalty 4)"), "title in property list: {props}");
    assert_eq!(message, "shrink");
}

#[test]
fn one_warning_per_smell_not_per_finding() {
    let finding = finding_with(
        "src/lib.rs",
        "tests::it",
        Span::new(1, 10, 1, 1),
        vec![
            smell_with(SmellCategory::ZeroAssertion, Severity::High, 10, None, "m1"),
            smell_with(SmellCategory::LargeExample, Severity::Low, 4, None, "m2"),
        ],
    );
    let report = report_with(vec![finding]);
    let warnings = render_no_cwd(&report, usize::MAX).lines().filter(|l| l.starts_with("::warning ")).count();
    assert_eq!(warnings, 2);
}

#[test]
fn warning_uses_smell_span_when_present() {
    let finding = finding_with(
        "src/lib.rs",
        "tests::it",
        Span::new(1, 20, 1, 1),
        vec![smell_with(SmellCategory::TautologicalAssertion, Severity::High, 10, Some(Span::new(7, 7, 12, 30)), "fix")],
    );
    let report = report_with(vec![finding]);
    let line = render_no_cwd(&report, usize::MAX);
    assert!(line.contains("line=7"), "smell span line: {line}");
    assert!(line.contains("col=12"), "smell span column: {line}");
}

#[test]
fn zero_smell_finding_emits_nothing() {
    let finding = finding_with("src/lib.rs", "tests::it", Span::new(1, 5, 1, 1), vec![]);
    let report = report_with(vec![finding]);
    assert_eq!(render_no_cwd(&report, usize::MAX), "");
}

#[test]
fn output_sorted_by_penalty_desc() {
    let report = report_with(vec![
        one("a.rs", "a::low", SmellCategory::LargeExample, Severity::Low, 4, "low"),
        one("b.rs", "b::high", SmellCategory::ZeroAssertion, Severity::High, 10, "high"),
        one("c.rs", "c::mid", SmellCategory::SurfaceOnlyIo, Severity::Moderate, 6, "mid"),
    ]);
    let out = render_no_cwd(&report, usize::MAX);
    let lines: Vec<&str> = out.lines().collect();
    assert!(lines[0].contains("high"), "penalty 10 first: {out}");
    assert!(lines[1].contains("mid"), "penalty 6 second: {out}");
    assert!(lines[2].contains("low"), "penalty 4 third: {out}");
}

#[test]
fn equal_penalty_ties_break_by_file_then_line_then_col() {
    let report = report_with(vec![
        one("z.rs", "z::t", SmellCategory::ZeroAssertion, Severity::High, 10, "z"),
        finding_with(
            "a.rs",
            "a::late",
            Span::new(10, 11, 1, 1),
            vec![smell_with(SmellCategory::ZeroAssertion, Severity::High, 10, None, "a_late")],
        ),
        finding_with(
            "a.rs",
            "a::early",
            Span::new(5, 6, 1, 1),
            vec![smell_with(SmellCategory::ZeroAssertion, Severity::High, 10, None, "a_early")],
        ),
    ]);
    let out = render_no_cwd(&report, usize::MAX);
    let lines: Vec<&str> = out.lines().collect();
    assert!(lines[0].contains("a_early"), "a.rs:5 first: {out}");
    assert!(lines[1].contains("a_late"), "a.rs:10 second: {out}");
    assert!(lines[2].contains('z'), "z.rs last: {out}");
}

#[test]
fn truncation_emits_top_n_and_dropped_notice() {
    let report = report_with(vec![
        one("a.rs", "a::worst", SmellCategory::ZeroAssertion, Severity::High, 10, "worst"),
        one("b.rs", "b::bad", SmellCategory::SurfaceOnlyIo, Severity::Moderate, 6, "bad"),
        one("c.rs", "c::least", SmellCategory::LargeExample, Severity::Low, 4, "least"),
    ]);
    let out = render_no_cwd(&report, 1);
    let warnings: Vec<&str> = out.lines().filter(|l| l.starts_with("::warning ")).collect();
    assert_eq!(warnings.len(), 1, "limit=1 keeps top 1: {out}");
    assert!(warnings[0].contains("worst"));
    let notices: Vec<&str> = out.lines().filter(|l| l.starts_with("::notice")).collect();
    assert_eq!(notices.len(), 1, "one trailing notice: {out}");
    assert_eq!(notices[0], "::notice::2 more test smells detected; see the full report for the complete list");
}

#[test]
fn no_notice_when_limit_not_exceeded() {
    let report = report_with(vec![one("src/lib.rs", "tests::it", SmellCategory::ZeroAssertion, Severity::High, 10, "m")]);
    let out = render_no_cwd(&report, 10);
    assert_eq!(out.lines().filter(|l| l.starts_with("::notice")).count(), 0);
    assert_eq!(out.lines().filter(|l| l.starts_with("::warning ")).count(), 1);
}

#[test]
fn zero_limit_emits_only_the_notice() {
    let report = report_with(vec![
        one("a.rs", "a::t", SmellCategory::ZeroAssertion, Severity::High, 10, "m"),
        one("b.rs", "b::t", SmellCategory::ZeroAssertion, Severity::High, 10, "n"),
    ]);
    let out = render_no_cwd(&report, 0);
    assert_eq!(out, "::notice::2 more test smells detected; see the full report for the complete list\n");
}

#[test]
fn message_escapes_percent_cr_lf() {
    let raw = "weird%name\rwith\nbreaks";
    assert_eq!(gha_escape(raw), "weird%25name%0Dwith%0Abreaks");
}

#[test]
fn message_leaves_colons_and_commas_alone() {
    assert_eq!(gha_escape("module::submodule, function"), "module::submodule, function");
}

#[test]
fn property_escape_covers_colon_and_comma() {
    assert_eq!(gha_escape_property("src:weird,file.rs"), "src%3Aweird%2Cfile.rs");
    assert_eq!(gha_escape_property("f%o.rs"), "f%25o.rs");
    assert_eq!(gha_escape_property("src/lib.rs"), "src/lib.rs");
}

#[test]
fn escaped_message_never_holds_a_line_break() {
    for raw in ["a\nb", "\r\n\r\n", "plain", "%\n%"] {
        let out = gha_escape(raw);
        assert!(!out.contains('\n') && !out.contains('\r'), "{out}");
    }
}

#[test]
fn file_property_escapes_delimiters_in_path() {
    let report = report_with(vec![one("src/a:b,c.rs", "tests::it", SmellCategory::ZeroAssertion, Severity::High, 10, "m")]);
    let out = render_no_cwd(&report, usize::MAX);
    let line = out.lines().next().expect("one warning line");
    assert!(line.contains("file=src/a%3Ab%2Cc.rs"), "escaped path: {line}");
    let props = line.split("::").nth(1).expect("`::` present");
    assert_eq!(props.matches(',').count(), 3, "file/line/col/title props: {props}");
}

#[test]
fn relativize_strips_cwd_prefix() {
    let cwd = "/home/user/repo";
    assert_eq!(relativize_path("/home/user/repo/src/lib.rs", Some(cwd)), "src/lib.rs");
}

#[test]
fn relativize_falls_back_when_outside_cwd() {
    let cwd = "/home/user/repo";
    assert_eq!(relativize_path("/elsewhere/file.rs", Some(cwd)), "/elsewhere/file.rs");
}

#[test]
fn relativize_passes_through_relative_paths() {
    let cwd = "/home/user/repo";
    assert_eq!(relativize_path("src/lib.rs", Some(cwd)), "src/lib.rs");
}

#[test]
fn relativize_handles_no_cwd() {
    assert_eq!(relativize_path("/abs/file.rs", None), "/abs/file.rs");
}

#[test]
fn render_relativizes_paths_under_cwd() {
    let report = report_with(vec![one("/home/user/repo/src/lib.rs", "t", SmellCategory::ZeroAssertion, Severity::High, 10, "m")]);
    let out = render(&report, usize::MAX, Some("/home/user/repo"));
    assert!(out.contains("file=src/lib.rs,"), "{out}");
}

#[test]
fn relative_or_unchanged_follows_the_platform_answers() {
    assert_eq!(relative_or_unchanged("/r/src/a.rs", true, Some("src/a.rs".to_string())), "src/a.rs");
    assert_eq!(relative_or_unchanged("/x/a.rs", true, None), "/x/a.rs");
    assert_eq!(relative_or_unchanged("src/a.rs", false, Some("zzz".to_string())), "src/a.rs");
}
