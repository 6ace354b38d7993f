//! Analysis pipeline: the options and outcome types of one analysis run,
//! and the assembly of a report from the per-file outcomes of reading
//! and parsing.
//!
//! Discovery, reading and parsing are performed by the caller; this
//! module turns their outcomes into the report and the diagnostics, and
//! decides when every file failed to parse.

use vstd::prelude::*;

use crate::cli::error::InitError;
use crate::detectors::{detect_all, expected_smells, smells_match};
use crate::domain::config::{admissible_matches, exact_matches, portable_overrides, FileConfig};
use crate::domain::finding::{total_penalty, Finding};
use crate::domain::parsed::{ParseDiagnostic, ParseDiagnosticKind, ParsedTest, ParsedTestFile};
use crate::domain::report::{
    deref_all, finding_refs, lemma_score_sum_bound, lemma_smell_total_append, report_findings, smell_total,
    FileReport, Report, Summary, score_consistent,
};
use crate::domain::source::{SourceDiagnostic, SourceDiagnosticKind};
use crate::domain::threshold::ThresholdMode;
use crate::domain::types::{FilePath, Span};
use crate::ports::parser::ParseError;
use crate::ports::source::SourceError;
use crate::text::{decimal, owned, push_decimal, push_str};

verus! {

/// Options of one analysis run.
#[derive(Debug, Clone)]
pub struct AnalyzeOptions {
    /// Workspace root the walker walks.
    pub src: String,
    /// Effective exclude globs.
    pub exclude: Vec<String>,
    /// File extensions the walker keeps.
    pub extensions: Vec<String>,
    /// Honour `.gitignore`, `.ignore` and `.git/info/exclude`.
    pub respect_gitignore: bool,
    /// Project configuration handed to the detectors.
    pub config: FileConfig,
    /// Threshold mode echoed onto the JSON envelope.
    pub threshold_mode: ThresholdMode,
}

impl Default for AnalyzeOptions {
    fn default() -> (r: Self)
        ensures
            r.src@ == "src"@,
            r.exclude@.len() == 0,
            r.extensions@.len() == 0,
            r.respect_gitignore,
            r.config.src is None,
            r.config.exclude@.len() == 0,
            r.config.extensions is None,
            r.config.opt_outs.honor is None,
            r.config.detectors@.len() == 0,
            r.config.overrides@.len() == 0,
            r.threshold_mode == ThresholdMode::Default,
    {
        AnalyzeOptions {
            src: owned("src"),
            exclude: Vec::new(),
            extensions: Vec::new(),
            respect_gitignore: true,
            config: FileConfig::default(),
            threshold_mode: ThresholdMode::default(),
        }
    }
}

/// Top-level analysis error.
#[derive(Debug)]
pub enum AnalyzeError {
    /// Discovery failed.
    Source(SourceError),
    /// The init subcommand failed.
    Init(InitError),
    /// Every discovered file failed to parse.
    AllFilesFailedToParse {
        /// Number of files discovered (all failed).
        total_files: u32,
    },
}

impl AnalyzeError {
    /// The human-readable rendering; the wrapped errors render as
    /// themselves.
    pub open spec fn text(&self) -> Seq<char> {
        match self {
            AnalyzeError::Source(e) => e.text(),
            AnalyzeError::Init(e) => e.message(),
            AnalyzeError::AllFilesFailedToParse { total_files } => "all "@ + decimal(
                *total_files as nat,
            ) + " source files failed to parse (see --verbose for per-file detail)"@,
        }
    }

    /// Renders [`AnalyzeError::text`].
    pub fn to_string(&self) -> (r: String)
        ensures
            r@ == self.text(),
    {
        match self {
            AnalyzeError::Source(e) => e.to_string(),
            AnalyzeError::Init(e) => e.to_string(),
            AnalyzeError::AllFilesFailedToParse { total_files } => {
                let mut s = owned("all ");
                push_decimal(&mut s, *total_files as u128);
                push_str(&mut s, " source files failed to parse (see --verbose for per-file detail)");
                s
            },
        }
    }
}

impl From<SourceError> for AnalyzeError {
    fn from(e: SourceError) -> (r: Self) {
        AnalyzeError::Source(e)
    }
}

impl vstd::std_specs::convert::FromSpecImpl<SourceError> for AnalyzeError {
    open spec fn obeys_from_spec() -> bool {
        true
    }

    open spec fn from_spec(e: SourceError) -> Self {
        AnalyzeError::Source(e)
    }
}

impl From<InitError> for AnalyzeError {
    fn from(e: InitError) -> (r: Self) {
        AnalyzeError::Init(e)
    }
}

impl vstd::std_specs::convert::FromSpecImpl<InitError> for AnalyzeError {
    open spec fn obeys_from_spec() -> bool {
        true
    }

    open spec fn from_spec(e: InitError) -> Self {
        AnalyzeError::Init(e)
    }
}

/// Output of an analysis run: the report and the diagnostics collected
/// on the way.
#[derive(Debug)]
pub struct AnalyzeOutput {
    /// The report.
    pub report: Report,
    /// Non-fatal discovery and file-read diagnostics.
    pub source_diagnostics: Vec<SourceDiagnostic>,
    /// Per-file parse diagnostics, attributed by path.
    pub parse_diagnostics: Vec<ParseDiagnostic>,
}

/// What became of one discovered file.
#[derive(Debug)]
pub enum FileOutcome {
    /// The file could not be read.
    Unreadable {
        /// The file.
        path: FilePath,
        /// The read failure, as text.
        message: String,
    },
    /// The parser rejected the file.
    Unparsable {
        /// The file.
        path: FilePath,
        /// The parser's error.
        error: ParseError,
    },
    /// The file parsed.
    Parsed {
        /// The file.
        path: FilePath,
        /// The parser's projection.
        file: ParsedTestFile,
    },
}

/// Number of files the parser rejected.
pub open spec fn parse_failures(os: Seq<FileOutcome>) -> nat
    decreases os.len(),
{
    if os.len() == 0 {
        0
    } else {
        parse_failures(os.drop_last()) + if os.last() is Unparsable {
            1nat
        } else {
            0nat
        }
    }
}

/// `n` capped at `u32::MAX`.
pub open spec fn cap_u32(n: nat) -> nat {
    if n > u32::MAX {
        u32::MAX as nat
    } else {
        n
    }
}

/// Every file failed to parse (counted with a `u32` cap): at least one
/// file, and as many parse failures as files.
pub open spec fn all_failed(os: Seq<FileOutcome>) -> bool {
    os.len() > 0 && cap_u32(parse_failures(os)) == cap_u32(os.len())
}

/// The read-failure diagnostics of `os`: (path, message), in order.
pub open spec fn read_failures(os: Seq<FileOutcome>) -> Seq<(Seq<char>, Seq<char>)>
    decreases os.len(),
{
    if os.len() == 0 {
        Seq::empty()
    } else {
        read_failures(os.drop_last()) + match os.last() {
            FileOutcome::Unreadable { path, message } => seq![(path@, message@)],
            _ => Seq::empty(),
        }
    }
}

/// A parse diagnostic as (kind, span, message).
pub type DiagnosticShape = (ParseDiagnosticKind, Option<Span>, Seq<char>);

/// The parser diagnostics of one parsed file, each attributed to the
/// file: `<path>: <message>`.
pub open spec fn attributed(path: Seq<char>, ds: Seq<ParseDiagnostic>) -> Seq<DiagnosticShape> {
    ds.map_values(|d: ParseDiagnostic| (d.kind, d.span, path + ": "@ + d.message@))
}

/// The parse diagnostics of `os`, in order: a syntax diagnostic per
/// rejected file, and the parser's own diagnostics of every parsed file,
/// all attributed to their file.
pub open spec fn parse_diagnostics_of(os: Seq<FileOutcome>) -> Seq<DiagnosticShape>
    decreases os.len(),
{
    if os.len() == 0 {
        Seq::empty()
    } else {
        parse_diagnostics_of(os.drop_last()) + match os.last() {
            FileOutcome::Unparsable { path, error: ParseError::Syntax { message, span } } => seq![
                (ParseDiagnosticKind::Syntax, span, path@ + ": "@ + message@),
            ],
            FileOutcome::Parsed { path, file } => attributed(path@, file.diagnostics@),
            _ => Seq::empty(),
        }
    }
}

/// The files that get a file report: parsed files with at least one
/// test, as (path, tests), in order.
pub open spec fn reported_files(os: Seq<FileOutcome>) -> Seq<(Seq<char>, Seq<ParsedTest>)>
    decreases os.len(),
{
    if os.len() == 0 {
        Seq::empty()
    } else {
        reported_files(os.drop_last()) + match os.last() {
            FileOutcome::Parsed { path, file } => if file.tests@.len() > 0 {
                seq![(path@, file.tests@)]
            } else {
                Seq::empty()
            },
            _ => Seq::empty(),
        }
    }
}

/// `f` is the finding of `test` under `cfg`: the test's identity, the
/// smells every detector contributes (under the overrides that apply to
/// its file), a score equal to their penalties, and no threshold flag.
pub open spec fn finding_for(f: Finding, test: ParsedTest, cfg: FileConfig) -> bool {
    &&& f.test == test.identity
    &&& score_consistent(f)
    &&& !f.exceeds_threshold
    &&& exists|applies: Seq<bool>|
        admissible_matches(cfg, test.identity.file_path@, applies) && smells_match(
            f.smells@,
            expected_smells(test, cfg, applies),
        )
    &&& portable_overrides(cfg, test.identity.file_path@) ==> smells_match(
        f.smells@,
        expected_smells(test, cfg, exact_matches(cfg, test.identity.file_path@)),
    )
}

/// `r` reports the files `rf` under `cfg`, one file report each.
pub open spec fn reports_match(
    r: Seq<FileReport>,
    rf: Seq<(Seq<char>, Seq<ParsedTest>)>,
    cfg: FileConfig,
) -> bool {
    &&& r.len() == rf.len()
    &&& forall|k: int|
        0 <= k < r.len() ==> {
            &&& (#[trigger] r[k]).file_path@ == rf[k].0
            &&& r[k].findings@.len() == rf[k].1.len()
            &&& forall|t: int| 0 <= t < rf[k].1.len() ==> finding_for(#[trigger] r[k].findings@[t], rf[k].1[t], cfg)
        }
}

/// Upper bound on the smells one test can carry: one per whole-test
/// detector and one per assertion.
pub open spec fn test_cost(t: ParsedTest) -> nat {
    4 + t.assertions@.len()
}

/// Sum of [`test_cost`] over `ts`.
pub open spec fn tests_cost(ts: Seq<ParsedTest>) -> nat
    decreases ts.len(),
{
    if ts.len() == 0 {
        0
    } else {
        tests_cost(ts.drop_last()) + test_cost(ts.last())
    }
}

/// Sum of [`tests_cost`] over the parsed files of `os`.
pub open spec fn outcomes_cost(os: Seq<FileOutcome>) -> nat
    decreases os.len(),
{
    if os.len() == 0 {
        0
    } else {
        outcomes_cost(os.drop_last()) + match os.last() {
            FileOutcome::Parsed { file, .. } => tests_cost(file.tests@),
            _ => 0,
        }
    }
}

/// Every test of a parsed file names that file.
pub open spec fn tests_name_their_file(os: Seq<FileOutcome>) -> bool {
    forall|i: int|
        0 <= i < os.len() ==> match #[trigger] os[i] {
            FileOutcome::Parsed { path, file } => forall|t: int|
                0 <= t < file.tests@.len() ==> (#[trigger] file.tests@[t]).identity.file_path@ == path@,
            _ => true,
        }
}

/// `ds` are the parse diagnostics described by `shapes`, in order.
pub open spec fn diagnostics_match(ds: Seq<ParseDiagnostic>, shapes: Seq<DiagnosticShape>) -> bool {
    &&& ds.len() == shapes.len()
    &&& forall|k: int|
        0 <= k < ds.len() ==> (#[trigger] ds[k]).kind == shapes[k].0 && ds[k].span == shapes[k].1
            && ds[k].message@ == shapes[k].2
}

/// `ds` are the read-failure diagnostics of `rf`, in order.
pub open spec fn read_diagnostics_match(ds: Seq<SourceDiagnostic>, rf: Seq<(Seq<char>, Seq<char>)>) -> bool {
    &&& ds.len() == rf.len()
    &&& forall|k: int|
        0 <= k < ds.len() ==> (#[trigger] ds[k]).kind == SourceDiagnosticKind::MidwalkIo
            && ds[k].path@ == rf[k].0 && ds[k].message@ == rf[k].1
}

/// A file's tests cost at least one each.
pub proof fn lemma_tests_cost_len(ts: Seq<ParsedTest>)
    ensures
        ts.len() <= tests_cost(ts),
    decreases ts.len(),
{
    if ts.len() > 0 {
        lemma_tests_cost_len(ts.drop_last());
    }
}

/// The findings of every test of a parsed file, in order.
fn findings_for_file(config: &FileConfig, path: &FilePath, file: &ParsedTestFile) -> (r: Vec<Finding>)
    requires
        forall|t: int|
            0 <= t < file.tests@.len() ==> (#[trigger] file.tests@[t]).identity.file_path@ == path@,
    ensures
        r@.len() == file.tests@.len(),
        forall|t: int| 0 <= t < r@.len() ==> finding_for(#[trigger] r@[t], file.tests@[t], *config),
        forall|t: int| 0 <= t < r@.len() ==> (#[trigger] r@[t]).test.file_path@ == path@,
        smell_total(r@) <= tests_cost(file.tests@),
        r@.len() <= tests_cost(file.tests@),
{
    let mut findings: Vec<Finding> = Vec::new();
    let mut j: usize = 0;
    proof {
        assert(file.tests@.take(0) =~= Seq::<ParsedTest>::empty());
    }
    while j < file.tests.len()
        invariant
            j <= file.tests@.len(),
            findings@.len() == j,
            forall|t: int|
                0 <= t < file.tests@.len() ==> (#[trigger] file.tests@[t]).identity.file_path@ == path@,
            forall|t: int| 0 <= t < j ==> finding_for(#[trigger] findings@[t], file.tests@[t], *config),
            forall|t: int| 0 <= t < j ==> (#[trigger] findings@[t]).test.file_path@ == path@,
            smell_total(findings@) <= tests_cost(file.tests@.take(j as int)),
            findings@.len() <= tests_cost(file.tests@.take(j as int)),
        decreases file.tests@.len() - j,
    {
        let test = &file.tests[j];
        let smells = detect_all(test, config);
        let ghost applies = choose|applies: Seq<bool>|
            admissible_matches(*config, test.identity.file_path@, applies) && smells_match(
                smells@,
                expected_smells(*test, *config, applies),
            );
        proof {
            crate::detectors::lemma_expected_smells_len(*test, *config, applies);
        }
        let f = Finding::new(test.identity.clone(), smells);
        let ghost before = findings@;
        findings.push(f);
        proof {
            assert(findings@.drop_last() =~= before);
            assert(file.tests@.take(j + 1).drop_last() =~= file.tests@.take(j as int));
            assert(file.tests@.take(j + 1).last() == *test);
            assert forall|t: int| 0 <= t < j + 1 implies finding_for(#[trigger] findings@[t], file.tests@[t], *config) by {
                if t < j {
                    assert(findings@[t] == before[t]);
                }
            }
            assert forall|t: int| 0 <= t < j + 1 implies (#[trigger] findings@[t]).test.file_path@ == path@ by {
                if t < j {
                    assert(findings@[t] == before[t]);
                }
            }
        }
        j = j + 1;
    }
    proof {
        assert(file.tests@.take(file.tests@.len() as int) =~= file.tests@);
    }
    findings
}

/// Assemble the report of a run from the outcome of every discovered
/// file, in discovery order: read failures become source diagnostics
/// (after the discovery's own), parse failures and the parser's
/// diagnostics become parse diagnostics attributed to their file, and
/// every parsed file with tests gets a file report of its tests'
/// findings. When every file failed to parse the run fails instead.
pub fn assemble_analysis(
    config: &FileConfig,
    source_diagnostics: Vec<SourceDiagnostic>,
    outcomes: Vec<FileOutcome>,
) -> (r: Result<AnalyzeOutput, AnalyzeError>)
    requires
        outcomes_cost(outcomes@) <= u32::MAX,
        tests_name_their_file(outcomes@),
    ensures
        r is Err <==> all_failed(outcomes@),
        r matches Err(e) ==> e matches AnalyzeError::AllFilesFailedToParse { total_files }
            && total_files == cap_u32(outcomes@.len()),
        r matches Ok(out) ==> {
            &&& out.source_diagnostics@.take(source_diagnostics@.len() as int) == source_diagnostics@
            &&& read_diagnostics_match(
                out.source_diagnostics@.skip(source_diagnostics@.len() as int),
                read_failures(outcomes@),
            )
            &&& diagnostics_match(out.parse_diagnostics@, parse_diagnostics_of(outcomes@))
            &&& reports_match(out.report.files@, reported_files(outcomes@), *config)
            &&& out.report.summary.summarizes(report_findings(out.report.files@))
            &&& !out.report.passed
        },
{
    let ghost os = outcomes@;
    let ghost init = source_diagnostics@;
    let mut sdiags = source_diagnostics;
    let mut pdiags: Vec<ParseDiagnostic> = Vec::new();
    let mut file_reports: Vec<FileReport> = Vec::new();
    let mut failed: u32 = 0;
    let mut i: usize = 0;
    proof {
        assert(os.take(0) =~= Seq::<FileOutcome>::empty());
        assert(sdiags@.take(init.len() as int) =~= init);
        assert(sdiags@.skip(init.len() as int) =~= Seq::<SourceDiagnostic>::empty());
        assert(report_findings(file_reports@) =~= Seq::<Finding>::empty());
    }
    while i < outcomes.len()
        invariant
            os == outcomes@,
            i <= os.len(),
            outcomes_cost(os) <= u32::MAX,
            tests_name_their_file(os),
            sdiags@.len() >= init.len(),
            sdiags@.take(init.len() as int) == init,
            read_diagnostics_match(sdiags@.skip(init.len() as int), read_failures(os.take(i as int))),
            diagnostics_match(pdiags@, parse_diagnostics_of(os.take(i as int))),
            reports_match(file_reports@, reported_files(os.take(i as int)), *config),
            failed == cap_u32(parse_failures(os.take(i as int))),
            smell_total(report_findings(file_reports@)) <= outcomes_cost(os.take(i as int)),
            report_findings(file_reports@).len() <= outcomes_cost(os.take(i as int)),
            forall|m: int|
                0 <= m < report_findings(file_reports@).len() ==> score_consistent(
                    #[trigger] report_findings(file_reports@)[m],
                ),
        decreases os.len() - i,
    {
        let ghost pre = os.take(i as int);
        let ghost next = os.take(i + 1);
        proof {
            assert(next.drop_last() =~= pre);
            assert(next.last() == os[i as int]);
            lemma_outcomes_cost_prefix(os, i + 1);
        }
        let ghost sd_before = sdiags@;
        let ghost pd_before = pdiags@;
        let ghost fr_before = file_reports@;
        match &outcomes[i] {
            FileOutcome::Unreadable { path, message } => {
                sdiags.push(SourceDiagnostic::new(path.clone(), SourceDiagnosticKind::MidwalkIo, message.as_str()));
                proof {
                    assert(sdiags@.take(init.len() as int) =~= init);
                    assert(sdiags@.skip(init.len() as int) =~= sd_before.skip(init.len() as int).push(sdiags@.last()));
                    assert(pdiags@ == pd_before);
                    assert(parse_diagnostics_of(next) =~= parse_diagnostics_of(pre));
                    assert(reported_files(next) =~= reported_files(pre));
                }
            },
            FileOutcome::Unparsable { path, error } => {
                match error {
                    ParseError::Syntax { message, span } => {
                        failed = failed.saturating_add(1);
                        let mut text = path.to_string();
                        push_str(&mut text, ": ");
                        push_str(&mut text, message.as_str());
                        let ghost pd_old = pdiags@;
                        pdiags.push(ParseDiagnostic::new(ParseDiagnosticKind::Syntax, *span, text.as_str()));
                        proof {
                            let shapes = parse_diagnostics_of(next);
                            assert(shapes =~= parse_diagnostics_of(pre).push(
                                (ParseDiagnosticKind::Syntax, *span, path@ + ": "@ + message@),
                            ));
                            assert forall|k: int| 0 <= k < pdiags@.len() implies (#[trigger] pdiags@[k]).kind == shapes[k].0
                                && pdiags@[k].span == shapes[k].1 && pdiags@[k].message@ == shapes[k].2 by {
                                if k < pd_old.len() {
                                    assert(pdiags@[k] == pd_old[k]);
                                }
                            }
                            assert(read_failures(next) =~= read_failures(pre));
                            assert(reported_files(next) =~= reported_files(pre));
                        }
                    },
                }
            },
            FileOutcome::Parsed { path, file } => {
                proof {
                    assert(match os[i as int] {
                        FileOutcome::Parsed { path, file } => forall|t: int|
                            0 <= t < file.tests@.len() ==> (#[trigger] file.tests@[t]).identity.file_path@ == path@,
                        _ => true,
                    });
                }
                let findings = findings_for_file(config, path, file);
                let mut d: usize = 0;
                while d < file.diagnostics.len()
                    invariant
                        d <= file.diagnostics@.len(),
                        pdiags@.len() == pd_before.len() + d,
                        pdiags@.take(pd_before.len() as int) == pd_before,
                        diagnostics_match(pdiags@.skip(pd_before.len() as int), attributed(path@, file.diagnostics@.take(d as int))),
                    decreases file.diagnostics@.len() - d,
                {
                    let diag = &file.diagnostics[d];
                    let mut text = path.to_string();
                    push_str(&mut text, ": ");
                    push_str(&mut text, diag.message.as_str());
                    let ghost pd_old = pdiags@;
                    pdiags.push(ParseDiagnostic::new(diag.kind, diag.span, text.as_str()));
                    proof {
                        let shapes = attributed(path@, file.diagnostics@.take(d + 1));
                        let old_shapes = attributed(path@, file.diagnostics@.take(d as int));
                        assert(shapes =~= old_shapes.push((diag.kind, diag.span, path@ + ": "@ + diag.message@)));
                        assert(pdiags@.take(pd_before.len() as int) =~= pd_old.take(pd_before.len() as int));
                        let tail = pdiags@.skip(pd_before.len() as int);
                        let old_tail = pd_old.skip(pd_before.len() as int);
                        assert(tail =~= old_tail.push(pdiags@.last()));
                        assert forall|k: int| 0 <= k < tail.len() implies (#[trigger] tail[k]).kind == shapes[k].0
                            && tail[k].span == shapes[k].1 && tail[k].message@ == shapes[k].2 by {
                            if k < old_tail.len() {
                                assert(tail[k] == old_tail[k]);
                            }
                        }
                    }
                    d = d + 1;
                }
                proof {
                    assert(file.diagnostics@.take(file.diagnostics@.len() as int) =~= file.diagnostics@);
                    let shapes = parse_diagnostics_of(next);
                    let added = attributed(path@, file.diagnostics@);
                    assert(shapes =~= parse_diagnostics_of(pre) + added);
                    assert forall|k: int| 0 <= k < pdiags@.len() implies (#[trigger] pdiags@[k]).kind == shapes[k].0
                        && pdiags@[k].span == shapes[k].1 && pdiags@[k].message@ == shapes[k].2 by {
                        if k < pd_before.len() {
                            assert(pdiags@[k] == pdiags@.take(pd_before.len() as int)[k]);
                        } else {
                            assert(pdiags@[k] == pdiags@.skip(pd_before.len() as int)[k - pd_before.len()]);
                        }
                    }
                    assert(read_failures(next) =~= read_failures(pre));
                }
                if findings.len() > 0 {
                    let fr = FileReport::new(path.clone(), findings);
                    file_reports.push(fr);
                    proof {
                        assert(reported_files(next) =~= reported_files(pre).push((path@, file.tests@)));
                        assert(file_reports@.drop_last() =~= fr_before);
                        lemma_smell_total_append(report_findings(fr_before), fr.findings@);
                        let rf = reported_files(next);
                        assert forall|k: int| 0 <= k < file_reports@.len() implies {
                            &&& (#[trigger] file_reports@[k]).file_path@ == rf[k].0
                            &&& file_reports@[k].findings@.len() == rf[k].1.len()
                            &&& forall|t: int| 0 <= t < rf[k].1.len() ==> finding_for(#[trigger] file_reports@[k].findings@[t], rf[k].1[t], *config)
                        } by {
                            if k < fr_before.len() {
                                assert(file_reports@[k] == fr_before[k]);
                            }
                        }
                        let all = report_findings(file_reports@);
                        assert(all =~= report_findings(fr_before) + fr.findings@);
                        assert forall|m: int| 0 <= m < all.len() implies score_consistent(#[trigger] all[m]) by {
                            if m < report_findings(fr_before).len() {
                                assert(all[m] == report_findings(fr_before)[m]);
                            } else {
                                assert(all[m] == fr.findings@[m - report_findings(fr_before).len()]);
                            }
                        }
                    }
                } else {
                    proof {
                        assert(reported_files(next) =~= reported_files(pre));
                    }
                }
            },
        }
        proof {
            assert(parse_failures(next) == parse_failures(pre) + if os[i as int] is Unparsable {
                1nat
            } else {
                0nat
            });
        }
        i = i + 1;
    }
    proof {
        assert(os.take(os.len() as int) =~= os);
        lemma_parse_failures_le(os);
    }
    let n = outcomes.len();
    let total: u32 = if n > 0xffff_ffffusize {
        0xffff_ffffu32
    } else {
        n as u32
    };
    if n > 0 && failed == total {
        return Err(AnalyzeError::AllFilesFailedToParse { total_files: total });
    }
    let refs = finding_refs(&file_reports);
    proof {
        let fs = deref_all(refs@);
        assert forall|m: int| 0 <= m < fs.len() implies score_consistent(#[trigger] fs[m]) by {
            assert(fs[m] == *refs@[m]);
        }
        lemma_score_sum_bound(fs);
        assert(smell_total(fs) * (u32::MAX as nat) <= (u32::MAX as nat) * (u32::MAX as nat)) by (nonlinear_arith)
            requires
                smell_total(fs) <= u32::MAX,
        ;
    }
    let summary = Summary::from_findings(&refs);
    let report = Report { files: file_reports, summary, passed: false };
    Ok(AnalyzeOutput { report, source_diagnostics: sdiags, parse_diagnostics: pdiags })
}

/// The cost of a prefix grows by the next outcome's cost and stays
/// within the whole.
pub proof fn lemma_outcomes_cost_prefix(os: Seq<FileOutcome>, n: int)
    requires
        0 < n <= os.len(),
    ensures
        outcomes_cost(os.take(n)) <= outcomes_cost(os),
    decreases os.len(),
{
    if n < os.len() {
        assert(os.drop_last().take(n) =~= os.take(n));
        lemma_outcomes_cost_prefix(os.drop_last(), n);
    } else {
        assert(os.take(n) =~= os);
    }
}

/// There are never more parse failures than outcomes.
pub proof fn lemma_parse_failures_le(os: Seq<FileOutcome>)
    ensures
        parse_failures(os) <= os.len(),
    decreases os.len(),
{
    if os.len() > 0 {
        lemma_parse_failures_le(os.drop_last());
    }
}

} // verus!
