use scrap_core::adapters::source::memory::MemorySource;
use scrap_core::cli::error::InitError;
use scrap_core::domain::source::{SourceDiagnostic, SourceDiagnosticKind};
use scrap_core::domain::types::{FilePath, SourceRoot, Span};
use scrap_core::ports::parser::ParseError;
use scrap_core::ports::source::{ErrorCause, SourceError, SourcePort};

#[test]
fn skeleton_compiles() {
    let root = SourceRoot::new("crates");
    assert_eq!(root.as_path(), "crates");
}

#[test]
fn module_compiles() {
    let cfg = scrap_core::domain::config::FileConfig::default();
    assert!(cfg.src.is_none());
}

#[test]
fn syntax_error_displays_message() {
    let err = ParseError::Syntax { message: "unexpected token".into(), span: Some(Span::new(3, 3, 1, 1)) };
    assert_eq!(err.to_string(), "syntax error: unexpected token");
    assert!(err.source().is_none());
}

#[test]
fn io_error_displays_path_and_preserves_source() {
    let err = SourceError::Io { path: FilePath::new("a/b.rs"), source: std::io::Error::other("boom") };
    assert_eq!(err.to_string(), "io error at a/b.rs");
    match err.source() {
        Some(ErrorCause::Io(e)) => assert_eq!(e.to_string(), "boom"),
        other => panic!("expected the io cause, got {other:?}"),
    }
}

#[test]
fn invalid_glob_displays_pattern_and_preserves_source() {
    let glob_err = globset::Glob::new("[unclosed").unwrap_err();
    let err = SourceError::InvalidGlob { pattern: "[unclosed".into(), source: glob_err };
    assert!(err.to_string().contains("[unclosed"));
    assert!(matches!(err.source(), Some(ErrorCause::Glob(_))));
}

#[test]
fn ignore_variant_displays_message_and_preserves_source() {
    let ignore_err = ignore::Error::Glob { glob: Some("[unclosed".into()), err: "missing ']'".into() };
    let err = SourceError::Ignore { source: ignore_err };
    assert!(err.to_string().contains("override"), "Display should mention `override`; got: {}", err.to_string());
    assert!(matches!(err.source(), Some(ErrorCause::Ignore(_))));
}

#[test]
fn empty_exclude_pattern_displays_pattern_without_source() {
    let err = SourceError::EmptyExcludePattern { pattern: "  ".into() };
    assert_eq!(err.to_string(), "empty exclude pattern: '  '");
    assert!(err.source().is_none());
}

#[test]
fn init_error_exists_display_contains_path_and_force_hint() {
    let err = InitError::Exists { path: "/tmp/test-adapter.toml".to_string() };
    let display = err.to_string();
    assert!(display.contains("/tmp/test-adapter.toml"), "Display must surface the path; got: {display}");
    assert!(display.contains("--force"), "Display must hint the --force escape hatch; got: {display}");
    assert!(err.source().is_none());
}

#[test]
fn init_error_io_preserves_source_via_std_error_source() {
    let io_err = std::io::Error::new(std::io::ErrorKind::PermissionDenied, "boom");
    let err = InitError::Io { path: "/tmp/test-adapter.toml".to_string(), source: io_err };
    let display = err.to_string();
    assert!(display.contains("/tmp/test-adapter.toml"));
    let src = err.source().expect("Io variant must chain its source");
    assert!(src.to_string().contains("boom"), "source chain must reach the underlying io::Error; got: {src}");
}

#[test]
fn init_error_exact_texts() {
    assert_eq!(InitError::Exists { path: "x.toml".into() }.to_string(), "x.toml already exists; pass --force to overwrite");
    let io = InitError::Io { path: "x.toml".into(), source: std::io::Error::other("no") };
    assert_eq!(io.to_string(), "failed to write x.toml");
}

#[test]
fn with_files_constructs_with_empty_diagnostics() {
    let src = MemorySource::with_files(vec![FilePath::new("a.rs")]);
    assert_eq!(src.files, vec![FilePath::new("a.rs")]);
    assert!(src.diagnostics.is_empty());
}

#[test]
fn discover_test_files_returns_configured_files_regardless_of_root() {
    let files = vec![FilePath::new("x.rs"), FilePath::new("y.rs")];
    let src = MemorySource::with_files(files.clone());
    let outcome_a = src.discover_test_files(&SourceRoot::new("/some/root")).unwrap();
    let outcome_b = src.discover_test_files(&SourceRoot::new("/totally/different")).unwrap();
    assert_eq!(outcome_a, outcome_b);
    assert_eq!(outcome_a.files, files);
    assert!(outcome_a.diagnostics.is_empty());
}

#[test]
fn new_constructor_carries_diagnostics_through() {
    let files = vec![FilePath::new("a.rs")];
    let diagnostics =
        vec![SourceDiagnostic::new(FilePath::new("denied"), SourceDiagnosticKind::PermissionDenied, "could not read entry")];
    let src = MemorySource::new(files.clone(), diagnostics.clone());
    let outcome = src.discover_test_files(&SourceRoot::new("any")).unwrap();
    assert_eq!(outcome.files, files);
    assert_eq!(outcome.diagnostics, diagnostics);
}
