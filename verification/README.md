# scrap-core

Test-smell detection for test suites, verified with Verus.

Language adapters parse test files into language-agnostic facts
(`ParsedTest`); the detectors turn those facts into smells (zero
assertions, tautological assertions, no-op I/O, surface-only I/O, large
examples); the pipeline aggregates them into a `Report`; the reporters
render it as JSON views, SARIF logs, GitHub Actions annotations, markdown
models, stdout text or tables.

## Layout

- `src/` — the verified library. Every detector, the configuration
  resolver, the report aggregation, the reporters' models and texts, the
  walker's decisions, the `init` template and the CLI's dispatch
  decisions carry `requires`/`ensures` contracts proved by Verus.
  Calls into `globset`, `ignore` and `comfy-table` go through small
  trusted wrappers whose doc comments say what is assumed of them.
- `app/` — plain Rust around the library: walking the disk, reading
  files, the serde wire encodings of reports, the markdown template,
  writing output and the process exit code.
- `tests/` — behaviour tests run against the compiled library.

## Verifying

Run Verus on `src/lib.rs` with the outside crates of `Cargo.toml`
available; the tests run with `cargo test`.
