//! SARIF 2.1.0 log, for code-scanning consumers: one result per smell,
//! the full rule catalogue, and the tool identity from the adapter.
//!
//! Regions are 1-based; `endColumn` is exclusive, so it is the span's
//! end column plus one. The wire encoding of the log is done by the
//! caller.

use vstd::prelude::*;

use crate::adapter_meta::AdapterMeta;
use crate::domain::classification::Severity;
use crate::domain::finding::Finding;
use crate::domain::report::{
    lemma_smell_pairs_append, report_findings, smell_location, smell_pairs, FileReport, Report,
};
use crate::domain::smell::{Smell, SmellCategory};
use crate::domain::types::Span;
use crate::text::{owned, push_str};

pub mod constants;

use constants::{rule_description, rule_full, rule_name, rule_short};

verus! {

/// SARIF schema URL.
pub const SCHEMA_URI: &'static str = "https://json.schemastore.org/sarif-2.1.0.json";

/// SARIF version.
pub const SARIF_VERSION: &'static str = "2.1.0";

/// `{"text": ...}` wrapper.
#[derive(Debug, Clone, PartialEq, Eq)]
pub struct SarifText {
    /// The text payload.
    pub text: String,
}

/// Top-level SARIF log.
#[derive(Debug, Clone, PartialEq, Eq)]
pub struct SarifLog {
    /// Schema URL.
    pub schema: String,
    /// SARIF version.
    pub version: String,
    /// Analysis runs (exactly one).
    pub runs: Vec<SarifRun>,
}

/// One analysis run.
#[derive(Debug, Clone, PartialEq, Eq)]
pub struct SarifRun {
    /// The tool of the run.
    pub tool: SarifTool,
    /// One result per smell.
    pub results: Vec<SarifResult>,
}

/// Tool wrapper.
#[derive(Debug, Clone, PartialEq, Eq)]
pub struct SarifTool {
    /// The driver component.
    pub driver: SarifDriver,
}

/// Tool identity and rule catalogue.
#[derive(Debug, Clone, PartialEq, Eq)]
pub struct SarifDriver {
    /// Tool name.
    pub name: String,
    /// Tool version.
    pub version: String,
    /// Repository URL.
    pub information_uri: String,
    /// One rule per smell category.
    pub rules: Vec<SarifRule>,
}

/// Metadata of one rule.
#[derive(Debug, Clone, PartialEq, Eq)]
pub struct SarifRule {
    /// Rule id: the category's wire string.
    pub id: String,
    /// PascalCase rule name.
    pub name: String,
    /// One-line summary.
    pub short_description: SarifText,
    /// Multi-sentence detail.
    pub full_description: SarifText,
    /// Rule-help URL.
    pub help_uri: String,
}

/// One result.
#[derive(Debug, Clone, PartialEq, Eq)]
pub struct SarifResult {
    /// Rule id of the result.
    pub rule_id: String,
    /// `error`, `warning` or `note`.
    pub level: String,
    /// The smell's follow-up message.
    pub message: SarifText,
    /// Source locations (exactly one).
    pub locations: Vec<SarifLocation>,
    /// Stable fingerprint.
    pub partial_fingerprints: SarifPartialFingerprints,
}

/// Location wrapper.
#[derive(Debug, Clone, PartialEq, Eq)]
pub struct SarifLocation {
    /// File and region.
    pub physical_location: SarifPhysicalLocation,
}

/// File plus region.
#[derive(Debug, Clone, PartialEq, Eq)]
pub struct SarifPhysicalLocation {
    /// The file.
    pub artifact_location: SarifArtifactLocation,
    /// The region within the file.
    pub region: SarifRegion,
}

/// File URI.
#[derive(Debug, Clone, PartialEq, Eq)]
pub struct SarifArtifactLocation {
    /// Path of the file.
    pub uri: String,
}

/// 1-based region; `end_column` is exclusive.
#[derive(Debug, Clone, Copy, PartialEq, Eq)]
pub struct SarifRegion {
    /// Start line, inclusive.
    pub start_line: u32,
    /// End line, inclusive.
    pub end_line: u32,
    /// Start column, inclusive.
    pub start_column: u32,
    /// End column, exclusive.
    pub end_column: u32,
}

/// Stable cross-run identity of a result.
#[derive(Debug, Clone, PartialEq, Eq)]
pub struct SarifPartialFingerprints {
    /// `<file>:<rule id>:<qualified name>`.
    pub test_identity: String,
}

/// The region of a span: lines and start column pass through, the end
/// column becomes exclusive (saturating).
pub open spec fn region_of(span: Span) -> SarifRegion {
    SarifRegion {
        start_line: span.start_line,
        end_line: span.end_line,
        start_column: span.start_column,
        end_column: if span.end_column == u32::MAX {
            u32::MAX
        } else {
            (span.end_column + 1) as u32
        },
    }
}

/// SARIF level of a severity.
pub open spec fn level_text(severity: Severity) -> Seq<char> {
    match severity {
        Severity::High => "error"@,
        Severity::Moderate => "warning"@,
        Severity::Low => "note"@,
    }
}

/// The category catalogued at position `k`, in declaration order.
pub open spec fn category_at(k: int) -> SmellCategory {
    if k == 0 {
        SmellCategory::ZeroAssertion
    } else if k == 1 {
        SmellCategory::TautologicalAssertion
    } else if k == 2 {
        SmellCategory::NoOpIo
    } else if k == 3 {
        SmellCategory::SurfaceOnlyIo
    } else {
        SmellCategory::LargeExample
    }
}

/// `r` is the rule of `category` with help URL `help`.
pub open spec fn rule_of(r: SarifRule, category: SmellCategory, help: Seq<char>) -> bool {
    &&& r.id@ == category.wire()
    &&& r.name@ == rule_name(category)
    &&& r.short_description.text@ == rule_short(category)
    &&& r.full_description.text@ == rule_full(category)
    &&& r.help_uri@ == help
}

/// `rules` catalogue every category once, in declaration order.
pub open spec fn rules_match(rules: Seq<SarifRule>, help: Seq<char>) -> bool {
    &&& rules.len() == 5
    &&& forall|k: int| 0 <= k < 5 ==> rule_of(#[trigger] rules[k], category_at(k), help)
}

/// `r` is the result of smell `sm` of finding `f`.
pub open spec fn result_of(r: SarifResult, f: Finding, sm: Smell) -> bool {
    &&& r.rule_id@ == sm.category.wire()
    &&& r.level@ == level_text(sm.severity)
    &&& r.message.text@ == sm.ai_actionability_message@
    &&& r.locations@.len() == 1
    &&& r.locations@[0].physical_location.artifact_location.uri@ == f.test.file_path@
    &&& r.locations@[0].physical_location.region == region_of(smell_location(f, sm))
    &&& r.partial_fingerprints.test_identity@ == f.test.file_path@ + ":"@ + sm.category.wire()
        + ":"@ + f.test.qualified_name@
}

/// `rs` are the results of `pairs`, one each, in order.
pub open spec fn results_match(rs: Seq<SarifResult>, pairs: Seq<(Finding, Smell)>) -> bool {
    &&& rs.len() == pairs.len()
    &&& forall|k: int| 0 <= k < rs.len() ==> result_of(#[trigger] rs[k], pairs[k].0, pairs[k].1)
}

/// The region of `span`.
pub fn region_for_span(span: Span) -> (r: SarifRegion)
    ensures
        r == region_of(span),
{
    SarifRegion {
        start_line: span.start_line,
        end_line: span.end_line,
        start_column: span.start_column,
        end_column: span.end_column.saturating_add(1),
    }
}

/// The SARIF level of `severity`: high is an error, moderate a warning,
/// low a note.
pub fn level_for(severity: Severity) -> (r: &'static str)
    ensures
        r@ == level_text(severity),
{
    match severity {
        Severity::High => "error",
        Severity::Moderate => "warning",
        Severity::Low => "note",
    }
}

/// The rule of `category`.
fn rule_for(category: SmellCategory, help_uri: &str) -> (r: SarifRule)
    ensures
        rule_of(r, category, help_uri@),
{
    let desc = rule_description(category);
    SarifRule {
        id: owned(category.as_wire_str()),
        name: owned(desc.name),
        short_description: SarifText { text: owned(desc.short_description) },
        full_description: SarifText { text: owned(desc.full_description) },
        help_uri: owned(help_uri),
    }
}

/// The full rule catalogue, one rule per category in declaration
/// order, whatever the report holds.
pub fn all_rules(help_uri: &str) -> (r: Vec<SarifRule>)
    ensures
        rules_match(r@, help_uri@),
{
    let mut rules: Vec<SarifRule> = Vec::new();
    rules.push(rule_for(SmellCategory::ZeroAssertion, help_uri));
    rules.push(rule_for(SmellCategory::TautologicalAssertion, help_uri));
    rules.push(rule_for(SmellCategory::NoOpIo, help_uri));
    rules.push(rule_for(SmellCategory::SurfaceOnlyIo, help_uri));
    rules.push(rule_for(SmellCategory::LargeExample, help_uri));
    rules
}

/// The result of one smell of a test at `file_path` named
/// `qualified_name`, located at the smell's span or else `test_span`.
pub fn result_for_smell(smell: &Smell, file_path: String, qualified_name: &str, test_span: Span) -> (r:
    SarifResult)
    ensures
        r.rule_id@ == smell.category.wire(),
        r.level@ == level_text(smell.severity),
        r.message.text@ == smell.ai_actionability_message@,
        r.locations@.len() == 1,
        r.locations@[0].physical_location.artifact_location.uri@ == file_path@,
        r.locations@[0].physical_location.region == region_of(
            match smell.span {
                Some(s) => s,
                None => test_span,
            },
        ),
        r.partial_fingerprints.test_identity@ == file_path@ + ":"@ + smell.category.wire() + ":"@
            + qualified_name@,
{
    let region_span = match smell.span {
        Some(s) => s,
        None => test_span,
    };
    let rule_id = owned(smell.category.as_wire_str());
    let mut fingerprint = file_path.clone();
    push_str(&mut fingerprint, ":");
    push_str(&mut fingerprint, rule_id.as_str());
    push_str(&mut fingerprint, ":");
    push_str(&mut fingerprint, qualified_name);
    let mut locations: Vec<SarifLocation> = Vec::new();
    locations.push(
        SarifLocation {
            physical_location: SarifPhysicalLocation {
                artifact_location: SarifArtifactLocation { uri: file_path },
                region: region_for_span(region_span),
            },
        },
    );
    SarifResult {
        rule_id: rule_id.clone(),
        level: owned(level_for(smell.severity)),
        message: SarifText { text: smell.ai_actionability_message.clone() },
        locations,
        partial_fingerprints: SarifPartialFingerprints { test_identity: fingerprint },
    }
}

/// Append the result of every smell of `f`, in order.
fn push_finding_results(out: &mut Vec<SarifResult>, f: &Finding)
    ensures
        final(out)@.len() == old(out)@.len() + f.smells@.len(),
        final(out)@.take(old(out)@.len() as int) == old(out)@,
        forall|k: int|
            0 <= k < f.smells@.len() ==> result_of(
                #[trigger] final(out)@[old(out)@.len() + k],
                *f,
                f.smells@[k],
            ),
{
    let ghost start = out@;
    let mut k: usize = 0;
    while k < f.smells.len()
        invariant
            k <= f.smells@.len(),
            out@.len() == start.len() + k,
            out@.take(start.len() as int) == start,
            forall|m: int| 0 <= m < k ==> result_of(#[trigger] out@[start.len() + m], *f, f.smells@[m]),
        decreases f.smells@.len() - k,
    {
        let res = result_for_smell(
            &f.smells[k],
            f.test.file_path.to_string(),
            f.test.qualified_name.as_str(),
            f.test.span,
        );
        let ghost before = out@;
        out.push(res);
        proof {
            assert(out@.take(start.len() as int) =~= before.take(start.len() as int));
            assert forall|m: int| 0 <= m < k + 1 implies result_of(#[trigger] out@[start.len() + m], *f, f.smells@[m]) by {
                if m < k {
                    assert(out@[start.len() + m] == before[start.len() + m]);
                }
            }
        }
        k = k + 1;
    }
}

/// One result per smell of the report, in file, finding and smell
/// order.
pub fn collect_results(report: &Report) -> (r: Vec<SarifResult>)
    ensures
        results_match(r@, smell_pairs(report_findings(report.files@))),
{
    let mut out: Vec<SarifResult> = Vec::new();
    let mut i: usize = 0;
    proof {
        assert(report.files@.take(0) =~= Seq::<FileReport>::empty());
        assert(smell_pairs(Seq::<Finding>::empty()) =~= Seq::<(Finding, Smell)>::empty());
    }
    while i < report.files.len()
        invariant
            i <= report.files@.len(),
            results_match(out@, smell_pairs(report_findings(report.files@.take(i as int)))),
        decreases report.files@.len() - i,
    {
        let file = &report.files[i];
        let ghost before_file = report_findings(report.files@.take(i as int));
        let mut j: usize = 0;
        proof {
            assert(before_file + file.findings@.take(0) =~= before_file);
        }
        while j < file.findings.len()
            invariant
                j <= file.findings@.len(),
                results_match(out@, smell_pairs(before_file + file.findings@.take(j as int))),
            decreases file.findings@.len() - j,
        {
            let f = &file.findings[j];
            let ghost prev = out@;
            let ghost ps = smell_pairs(before_file + file.findings@.take(j as int));
            push_finding_results(&mut out, f);
            proof {
                let next = before_file + file.findings@.take(j + 1);
                assert(next.drop_last() =~= before_file + file.findings@.take(j as int));
                assert(next.last() == *f);
                let tail = f.smells@.map_values(|sm: Smell| (*f, sm));
                assert(smell_pairs(next) == ps + tail);
                assert forall|k: int| 0 <= k < out@.len() implies result_of(#[trigger] out@[k], (ps + tail)[k].0, (ps + tail)[k].1) by {
                    if k < prev.len() {
                        assert(out@[k] == out@.take(prev.len() as int)[k]);
                    } else {
                        assert(out@[prev.len() + (k - prev.len())] == out@[k]);
                    }
                }
            }
            j = j + 1;
        }
        proof {
            assert(file.findings@.take(file.findings@.len() as int) =~= file.findings@);
            let nf = report.files@.take(i + 1);
            assert(nf.drop_last() =~= report.files@.take(i as int));
            assert(nf.last() == *file);
        }
        i = i + 1;
    }
    proof {
        assert(report.files@.take(report.files@.len() as int) =~= report.files@);
    }
    out
}

/// The SARIF log of `report`: schema and version, one run whose driver
/// is the adapter (name, version, repository URL) with the full rule
/// catalogue, and one result per smell.
pub fn build_log(report: &Report, meta: &AdapterMeta) -> (r: SarifLog)
    ensures
        r.schema@ == SCHEMA_URI@,
        r.version@ == SARIF_VERSION@,
        r.runs@.len() == 1,
        r.runs@[0].tool.driver.name@ == meta.tool_name@,
        r.runs@[0].tool.driver.version@ == meta.tool_version@,
        r.runs@[0].tool.driver.information_uri@ == meta.tool_info_uri@,
        rules_match(r.runs@[0].tool.driver.rules@, meta.rule_help_uri@),
        results_match(r.runs@[0].results@, smell_pairs(report_findings(report.files@))),
{
    let results = collect_results(report);
    let mut runs: Vec<SarifRun> = Vec::new();
    runs.push(
        SarifRun {
            tool: SarifTool {
                driver: SarifDriver {
                    name: owned(meta.tool_name),
                    version: owned(meta.tool_version),
                    information_uri: owned(meta.tool_info_uri),
                    rules: all_rules(meta.rule_help_uri),
                },
            },
            results,
        },
    );
    SarifLog { schema: owned(SCHEMA_URI), version: owned(SARIF_VERSION), runs }
}

} // verus!
