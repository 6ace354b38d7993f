use scrap_core::adapters::source::fs::{
    classify_entry, eq_ignore_ascii_case, exclude_overrides, negated, is_blank, sort_discovered, validate_excludes,
    walk_error_attributed_path, walk_error_kind, Decision,
    EntryFacts, EntryKind, WalkError,
};
use scrap_core::domain::source::SourceDiagnosticKind;
use scrap_core::paths::relative_to;
use scrap_core::domain::types::FilePath;
use scrap_core::ports::source::SourceError;

fn entry(depth: usize, file_type: Option<EntryKind>, rel: &str, ext: Option<&str>) -> EntryFacts {
    EntryFacts {
        depth,
        file_type,
        display_path: format!("/root/{rel}"),
        relative_path: rel.to_string(),
        extension: ext.map(|e| e.to_string()),
    }
}

fn exts(v: &[&str]) -> Vec<String> {
    v.iter().map(|s| s.to_string()).collect()
}

#[test]
fn try_new_with_no_excludes_returns_ok() {
    assert!(validate_excludes(&vec![]).is_ok());
}

#[test]
fn try_new_with_valid_excludes_returns_ok() {
    let r = validate_excludes(&vec!["vendored/**".into(), "target/**".into()]);
    assert!(r.is_ok(), "expected Ok, got {:?}", r.err());
}

#[test]
fn try_new_with_invalid_glob_returns_invalid_glob_error() {
    match validate_excludes(&vec!["[unclosed".into()]) {
        Err(SourceError::InvalidGlob { pattern, .. }) => assert_eq!(pattern, "[unclosed"),
        other => panic!("expected SourceError::InvalidGlob, got {other:?}"),
    }
}

#[test]
fn try_new_with_empty_exclude_pattern_returns_empty_exclude_error() {
    match validate_excludes(&vec![String::new()]) {
        Err(SourceError::EmptyExcludePattern { pattern }) => assert_eq!(pattern, ""),
        other => panic!("expected SourceError::EmptyExcludePattern, got {other:?}"),
    }
}

#[test]
fn try_new_with_whitespace_exclude_pattern_returns_empty_exclude_error() {
    match validate_excludes(&vec!["   ".into()]) {
        Err(SourceError::EmptyExcludePattern { pattern }) => assert_eq!(pattern, "   "),
        other => panic!("expected SourceError::EmptyExcludePattern, got {other:?}"),
    }
}

#[test]
fn validate_excludes_reports_the_first_rejected_pattern() {
    match validate_excludes(&vec!["ok/**".into(), "[bad".into(), "".into()]) {
        Err(SourceError::InvalidGlob { pattern, .. }) => assert_eq!(pattern, "[bad"),
        other => panic!("expected the invalid glob first, got {other:?}"),
    }
}

#[test]
fn blank_means_only_whitespace() {
    assert!(is_blank(""));
    assert!(is_blank(" \t\n\u{3000}"));
    assert!(!is_blank(" a "));
}

#[test]
fn extension_filter_is_case_insensitive_and_bare() {
    let allowed = exts(&["rs"]);
    assert!(matches!(classify_entry(&entry(1, Some(EntryKind::File), "a.RS", Some("RS")), &allowed), Decision::Include(_)));
    assert!(matches!(classify_entry(&entry(1, Some(EntryKind::File), "b.py", Some("py")), &allowed), Decision::Skip));
    assert!(matches!(classify_entry(&entry(1, Some(EntryKind::File), "Makefile", None), &allowed), Decision::Skip));
    assert!(eq_ignore_ascii_case("Rs", "rS"));
    assert!(!eq_ignore_ascii_case("rs", "r"));
}

#[test]
fn empty_extensions_includes_all_files() {
    match classify_entry(&entry(2, Some(EntryKind::File), "sub/x.txt", Some("txt")), &vec![]) {
        Decision::Include(p) => assert_eq!(p, FilePath::new("sub/x.txt")),
        other => panic!("expected include, got {other:?}"),
    }
}

#[test]
fn walk_root_and_directories_are_skipped() {
    assert!(matches!(classify_entry(&entry(0, Some(EntryKind::Other), "", None), &vec![]), Decision::Skip));
    assert!(matches!(classify_entry(&entry(1, Some(EntryKind::Other), "dir", None), &vec![]), Decision::Skip));
}

#[test]
fn symlinked_file_is_skipped_with_other_diagnostic() {
    match classify_entry(&entry(1, Some(EntryKind::Symlink), "link.rs", Some("rs")), &exts(&["rs"])) {
        Decision::Diagnostic(d) => {
            assert_eq!(d.kind, SourceDiagnosticKind::Other);
            assert_eq!(d.path, FilePath::new("link.rs"));
            assert_eq!(d.message, "symlink not followed: /root/link.rs");
        }
        other => panic!("expected a diagnostic, got {other:?}"),
    }
}

#[test]
fn unknown_file_type_is_a_midwalk_diagnostic() {
    match classify_entry(&entry(1, None, "odd", None), &vec![]) {
        Decision::Diagnostic(d) => {
            assert_eq!(d.kind, SourceDiagnosticKind::MidwalkIo);
            assert_eq!(d.message, "could not determine file type for /root/odd");
        }
        other => panic!("expected a diagnostic, got {other:?}"),
    }
}

fn with_path(path: &str, err: WalkError) -> WalkError {
    WalkError::WithPath { path: path.to_string(), err: Box::new(err) }
}

#[test]
fn classify_with_path_io_permission_denied_returns_permission_denied() {
    let err = with_path("/tmp/scrap-classify/a", WalkError::Io { permission_denied: true });
    assert_eq!(walk_error_kind(&err), SourceDiagnosticKind::PermissionDenied);
    assert_eq!(walk_error_attributed_path(&err), Some("/tmp/scrap-classify/a"));
}

#[test]
fn classify_with_path_io_other_returns_midwalk_io() {
    let err = with_path("/tmp/scrap-classify/b", WalkError::Io { permission_denied: false });
    assert_eq!(walk_error_kind(&err), SourceDiagnosticKind::MidwalkIo);
    assert_eq!(walk_error_attributed_path(&err), Some("/tmp/scrap-classify/b"));
}

#[test]
fn classify_nested_with_depth_with_path_peels_correctly() {
    let err = WalkError::WithDepth { err: Box::new(with_path("/tmp/scrap-classify/c", WalkError::Io { permission_denied: true })) };
    assert_eq!(walk_error_kind(&err), SourceDiagnosticKind::PermissionDenied);
    assert_eq!(walk_error_attributed_path(&err), Some("/tmp/scrap-classify/c"));
}

#[test]
fn classify_loop_returns_other() {
    assert_eq!(walk_error_kind(&WalkError::Other), SourceDiagnosticKind::Other);
}

#[test]
fn classify_partial_with_inner_permission_denied_still_returns_other() {
    assert_eq!(walk_error_kind(&WalkError::Other), SourceDiagnosticKind::Other);
    assert_eq!(walk_error_attributed_path(&WalkError::Other), None);
}

#[test]
fn classify_without_with_path_falls_back_to_root() {
    let err = WalkError::WithLineNumber { err: Box::new(WalkError::Other) };
    assert_eq!(walk_error_attributed_path(&err), None);
    assert_eq!(walk_error_kind(&err), SourceDiagnosticKind::Other);
}

#[test]
fn exclude_overrides_excludes_matching_paths() {
    let builder = exclude_overrides("/root", &vec!["target/**".into()]).unwrap();
    let matcher = builder.build().unwrap();
    assert!(matcher.matched("/root/target/x.rs", false).is_ignore());
    assert!(!matcher.matched("/root/src/x.rs", false).is_ignore());
}

#[test]
fn exclude_overrides_reports_validation_errors_first() {
    assert!(matches!(exclude_overrides("/root", &vec!["  ".into()]), Err(SourceError::EmptyExcludePattern { .. })));
    assert!(matches!(exclude_overrides("/root", &vec!["[x".into()]), Err(SourceError::InvalidGlob { .. })));
}

#[test]
fn negated_prefixes_a_bang() {
    assert_eq!(negated("target/**"), "!target/**");
}

#[test]
fn sort_discovered_orders_paths_byte_wise() {
    let mut files = vec![
        FilePath::new("src/b.rs"),
        FilePath::new("a/b.rs"),
        FilePath::new("a.rs"),
        FilePath::new("src/a.rs"),
        FilePath::new("a.rs"),
    ];
    sort_discovered(&mut files);
    let got: Vec<String> = files.iter().map(|f| f.to_string()).collect();
    // Byte-wise, '.' (0x2e) sorts before '/' (0x2f): `a.rs` before `a/b.rs`.
    assert_eq!(got, vec!["a.rs", "a.rs", "a/b.rs", "src/a.rs", "src/b.rs"]);
}

#[test]
fn exclude_overrides_keeps_one_line_per_pattern_trimmed() {
    let builder = exclude_overrides("/root", &vec!["target/**  ".into(), "*.tmp".into()]).unwrap();
    let matcher = builder.build().unwrap();
    assert_eq!(matcher.num_ignores(), 2);
    assert!(matcher.matched("/root/target/x.rs", false).is_ignore());
    assert!(matcher.matched("/root/a/b.tmp", false).is_ignore());
    assert!(!matcher.matched("/root/a/b.rs", false).is_ignore());
}

#[test]
fn exclude_overrides_accepts_empty_and_valid_pattern_lists() {
    assert!(exclude_overrides(".", &vec![]).is_ok());
    assert!(exclude_overrides(".", &vec!["vendored/**".into()]).is_ok());
    assert!(matches!(
        exclude_overrides(".", &vec!["[unclosed".into()]),
        Err(SourceError::InvalidGlob { ref pattern, .. }) if pattern == "[unclosed"
    ));
    assert!(matches!(
        exclude_overrides(".", &vec!["   ".into()]),
        Err(SourceError::EmptyExcludePattern { ref pattern }) if pattern == "   "
    ));
}

#[test]
fn relative_to_strips_the_walked_root() {
    assert_eq!(relative_to("/r/src/a.rs", "/r"), "src/a.rs");
    assert_eq!(relative_to("/x/a.rs", "/r"), "/x/a.rs");
}
