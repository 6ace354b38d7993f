use scrap_core::adapter_meta::AdapterMeta;
use scrap_core::cli::error::InitError;
use scrap_core::cli::init::{check_init_target, init_report, render_config, src_layout_from, SrcDetection};

fn fixture_meta() -> AdapterMeta {
    AdapterMeta {
        tool_name: "test-adapter",
        language: "rust",
        tool_version: "0.1.0",
        long_version: "0.1.0 (test 2026-05-27)",
        about: "init-test fixture",
        long_about: "Test-fixture AdapterMeta for cli::init tests.",
        after_help: "",
        extensions: &["rs"],
        tool_info_uri: "https://example.invalid/scrap",
        rule_help_uri: "https://example.invalid/scrap/rules",
        config_file_name: "test-adapter.toml",
        default_excludes: &["tests/**", "benches/**", "examples/**"],
        parse_hint: "ensure --src points at a workspace with test files",
    }
}

fn detected(path: &str, is_fallback: bool) -> SrcDetection {
    SrcDetection { src_path: path.to_string(), is_fallback }
}

#[test]
fn detect_src_layout_prefers_src_over_crates() {
    let det = src_layout_from(true, true);
    assert_eq!(det.src_path, "src");
    assert!(!det.is_fallback);
}

#[test]
fn detect_src_layout_falls_back_when_neither_exists() {
    let det = src_layout_from(false, false);
    assert_eq!(det.src_path, "src");
    assert!(det.is_fallback);
}

#[test]
fn detect_src_layout_finds_crates_when_only_crates_exists() {
    let det = src_layout_from(false, true);
    assert_eq!(det.src_path, "crates");
    assert!(!det.is_fallback);
}

#[test]
fn src_layout_only_src_is_src() {
    assert_eq!(src_layout_from(true, false), detected("src", false));
}

#[test]
fn render_config_emits_commented_threshold_mode() {
    let out = render_config(&fixture_meta(), &detected("src", false));
    assert!(out.contains("# threshold_mode = \"default\""), "threshold_mode MUST be commented; got:\n{out}");
    assert!(!out.contains("\nthreshold_mode = \"default\""), "threshold_mode MUST NOT be uncommented; got:\n{out}");
}

#[test]
fn render_config_emits_commented_excludes_from_meta() {
    let out = render_config(&fixture_meta(), &detected("src", false));
    assert!(out.contains("# exclude = ["), "expected `# exclude = [` line");
    assert!(out.contains("tests/**"));
    assert!(out.contains("benches/**"));
    assert!(out.contains("examples/**"));
}

#[test]
fn render_config_emits_fallback_hint_only_when_detection_failed() {
    let meta = fixture_meta();
    let with_detect = render_config(&meta, &detected("src", false));
    let with_fallback = render_config(&meta, &detected("src", true));
    assert!(!with_detect.contains("adjust if your sources live elsewhere"));
    assert!(with_fallback.contains("adjust if your sources live elsewhere"));
}

#[test]
fn render_config_writes_detected_src() {
    let out = render_config(&fixture_meta(), &detected("crates", false));
    assert!(out.contains("src = \"crates\""), "{out}");
}

#[test]
fn handle_init_with_io_bails_when_exists_without_force() {
    let err = check_init_target(true, false, "/tmp/x/test-adapter.toml").expect_err("must bail without --force");
    match err {
        InitError::Exists { path } => assert_eq!(path, "/tmp/x/test-adapter.toml"),
        other => panic!("expected InitError::Exists, got {other:?}"),
    }
}

#[test]
fn handle_init_with_io_overwrites_with_force() {
    assert!(check_init_target(true, true, "test-adapter.toml").is_ok());
}

#[test]
fn handle_init_with_io_writes_default_in_empty_tempdir() {
    assert!(check_init_target(false, false, "test-adapter.toml").is_ok());
    let det = src_layout_from(false, false);
    let contents = render_config(&fixture_meta(), &det);
    assert!(contents.contains("src = \"src\""));
    assert!(contents.contains("# threshold_mode = \"default\""));
    let report = init_report(&fixture_meta(), &det);
    assert!(report.contains("wrote test-adapter.toml"), "report must surface the write; got: {report}");
}

#[test]
fn init_report_exact_text() {
    assert_eq!(
        init_report(&fixture_meta(), &detected("crates", false)),
        "wrote test-adapter.toml (src = \"crates\")\n  next: run `test-adapter --src crates --format json` to analyze, or edit the generated TOML to tune detectors.\n"
    );
}
