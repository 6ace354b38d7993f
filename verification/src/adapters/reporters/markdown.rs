//! Markdown report model: the summary block (from the report itself,
//! never reshaped by display options) and one findings-table row per
//! smell of the findings the view shows (filter, then truncate, as in
//! the JSON view). Dynamic cell text is made safe for a table row.
//!
//! Laying the model out through the template is done by the caller.

use vstd::prelude::*;

use crate::adapter_meta::AdapterMeta;
use crate::adapters::reporters::json::{eligible, shown_len, view_findings, EmitOptions};
use crate::domain::classification::Severity;
use crate::domain::finding::Finding;
use crate::domain::report::{
    count_of, deref_all, lemma_smell_pairs_append, report_findings, smell_location, smell_pairs,
    CountKey, Report,
};
use crate::domain::smell::{Smell, SmellCategory};
use crate::text::{chars_of, decimal, owned, push_char, push_decimal, push_str};

verus! {

/// One `| name | count |` distribution row.
#[derive(Debug, Clone, Copy, PartialEq, Eq)]
pub struct CountRow {
    /// Category wire name or severity label.
    pub name: &'static str,
    /// The count.
    pub count: u32,
}

/// One findings-table row.
#[derive(Debug, Clone, PartialEq, Eq)]
pub struct FindingRow {
    /// `file:line`, cell-escaped.
    pub location: String,
    /// Test name, cell-escaped.
    pub test_name: String,
    /// Smell wire name.
    pub smell: &'static str,
    /// Severity label.
    pub severity: &'static str,
    /// Penalty of the smell.
    pub penalty: u32,
    /// Follow-up suggestion, cell-escaped.
    pub suggestion: String,
}

/// Everything the markdown template lays out, except the mean score.
#[derive(Debug, Clone)]
pub struct MarkdownModel {
    /// Tool name.
    pub tool_name: &'static str,
    /// Tool version.
    pub tool_version: &'static str,
    /// `PASS` or `FAIL`.
    pub pass_fail: &'static str,
    /// Tests inspected.
    pub total_tests: u32,
    /// Files inspected.
    pub total_files: u32,
    /// Tests exceeding the threshold.
    pub exceeding_threshold: u32,
    /// Highest score, one decimal.
    pub max_score: String,
    /// Whether any smell was recorded.
    pub has_distribution: bool,
    /// Per-category counts.
    pub smell_rows: Vec<CountRow>,
    /// Per-severity counts.
    pub severity_rows: Vec<CountRow>,
    /// Whether the findings table has rows.
    pub has_rows: bool,
    /// Whether truncation dropped eligible findings.
    pub truncated: bool,
    /// Number of table rows.
    pub shown_count: usize,
    /// Findings eligible before truncation.
    pub eligible_count: usize,
    /// The table rows.
    pub rows: Vec<FindingRow>,
}

/// Capitalized label of a severity.
pub open spec fn label(severity: Severity) -> Seq<char> {
    match severity {
        Severity::Low => "Low"@,
        Severity::Moderate => "Moderate"@,
        Severity::High => "High"@,
    }
}

/// Capitalized label of a severity.
pub fn severity_label(severity: Severity) -> (r: &'static str)
    ensures
        r@ == label(severity),
{
    match severity {
        Severity::Low => "Low",
        Severity::Moderate => "Moderate",
        Severity::High => "High",
    }
}

/// Cell escape of one character: `|` becomes `\|`, CR and LF a space.
pub open spec fn cell_char(c: char) -> Seq<char> {
    if c == '|' {
        seq!['\\', '|']
    } else if c == '\r' || c == '\n' {
        seq![' ']
    } else {
        seq![c]
    }
}

/// Cell escape of `s`.
pub open spec fn cell_text(s: Seq<char>) -> Seq<char>
    decreases s.len(),
{
    if s.len() == 0 {
        Seq::empty()
    } else {
        cell_text(s.drop_last()) + cell_char(s.last())
    }
}

/// An escaped cell holds no line break, and each `|` in it is escaped.
pub proof fn lemma_cell_text_safe(s: Seq<char>)
    ensures
        !cell_text(s).contains('\r'),
        !cell_text(s).contains('\n'),
        forall|i: int|
            0 <= i < cell_text(s).len() && #[trigger] cell_text(s)[i] == '|' ==> i > 0 && cell_text(s)[i - 1] == '\\',
    decreases s.len(),
{
    if s.len() > 0 {
        lemma_cell_text_safe(s.drop_last());
        let a = cell_text(s.drop_last());
        let b = cell_char(s.last());
        let t = a + b;
        assert forall|i: int| 0 <= i < t.len() implies #[trigger] t[i] != '\r' && t[i] != '\n' && (t[i] == '|'
            ==> i > 0 && t[i - 1] == '\\') by {
            if i < a.len() {
                assert(t[i] == a[i]);
                if t[i] == '|' {
                    assert(t[i - 1] == a[i - 1]);
                }
            } else {
                assert(t[i] == b[i - a.len()]);
                if s.last() == '|' && i == a.len() + 1 {
                    assert(t[i - 1] == b[0]);
                }
            }
        }
    }
}

/// Make `s` safe for a table cell: `|` becomes `\|`, CR and LF a space.
pub fn md_cell(s: &str) -> (r: String)
    ensures
        r@ == cell_text(s@),
        !r@.contains('\r'),
        !r@.contains('\n'),
{
    let cs = chars_of(s);
    let mut out = String::new();
    let mut i: usize = 0;
    assert(cs@.take(0) =~= Seq::<char>::empty());
    while i < cs.len()
        invariant
            cs@ == s@,
            i <= cs@.len(),
            out@ == cell_text(cs@.take(i as int)),
        decreases cs@.len() - i,
    {
        let c = cs[i];
        if c == '|' {
            push_char(&mut out, '\\');
            push_char(&mut out, '|');
        } else if c == '\r' || c == '\n' {
            push_char(&mut out, ' ');
        } else {
            push_char(&mut out, c);
        }
        assert(cs@.take(i + 1).drop_last() =~= cs@.take(i as int));
        i = i + 1;
        assert(out@ =~= cell_text(cs@.take(i as int)));
    }
    assert(cs@.take(cs@.len() as int) =~= cs@);
    proof {
        lemma_cell_text_safe(s@);
    }
    out
}

/// `row` is the table row of smell `sm` of finding `f`.
pub open spec fn row_of(row: FindingRow, f: Finding, sm: Smell) -> bool {
    &&& row.location@ == cell_text(
        f.test.file_path@ + ":"@ + decimal(smell_location(f, sm).start_line as nat),
    )
    &&& row.test_name@ == cell_text(f.test.qualified_name@)
    &&& row.smell@ == sm.category.wire()
    &&& row.severity@ == label(sm.severity)
    &&& row.penalty == sm.penalty
    &&& row.suggestion@ == cell_text(sm.ai_actionability_message@)
}

/// `rows` are the rows of `pairs`, one each, in order.
pub open spec fn rows_match(rows: Seq<FindingRow>, pairs: Seq<(Finding, Smell)>) -> bool {
    &&& rows.len() == pairs.len()
    &&& forall|k: int| 0 <= k < rows.len() ==> row_of(#[trigger] rows[k], pairs[k].0, pairs[k].1)
}

/// Append the rows of every smell of `f`.
fn push_finding_rows(out: &mut Vec<FindingRow>, f: &Finding)
    ensures
        final(out)@.len() == old(out)@.len() + f.smells@.len(),
        final(out)@.take(old(out)@.len() as int) == old(out)@,
        forall|k: int|
            0 <= k < f.smells@.len() ==> row_of(#[trigger] final(out)@[old(out)@.len() + k], *f, f.smells@[k]),
{
    let ghost start = out@;
    let mut k: usize = 0;
    while k < f.smells.len()
        invariant
            k <= f.smells@.len(),
            out@.len() == start.len() + k,
            out@.take(start.len() as int) == start,
            forall|m: int| 0 <= m < k ==> row_of(#[trigger] out@[start.len() + m], *f, f.smells@[m]),
        decreases f.smells@.len() - k,
    {
        let sm = &f.smells[k];
        let span = match sm.span {
            Some(s) => s,
            None => f.test.span,
        };
        let mut loc = f.test.file_path.to_string();
        push_str(&mut loc, ":");
        push_decimal(&mut loc, span.start_line as u128);
        let row = FindingRow {
            location: md_cell(loc.as_str()),
            test_name: md_cell(f.test.qualified_name.as_str()),
            smell: sm.category.as_wire_str(),
            severity: severity_label(sm.severity),
            penalty: sm.penalty,
            suggestion: md_cell(sm.ai_actionability_message.as_str()),
        };
        let ghost before = out@;
        out.push(row);
        proof {
            assert(out@.take(start.len() as int) =~= before.take(start.len() as int));
            assert forall|m: int| 0 <= m < k + 1 implies row_of(#[trigger] out@[start.len() + m], *f, f.smells@[m]) by {
                if m < k {
                    assert(out@[start.len() + m] == before[start.len() + m]);
                }
            }
        }
        k = k + 1;
    }
}

/// The table rows of `shown`: one per smell, in order.
pub fn finding_rows(shown: &Vec<&Finding>) -> (r: Vec<FindingRow>)
    ensures
        rows_match(r@, smell_pairs(deref_all(shown@))),
{
    let mut out: Vec<FindingRow> = Vec::new();
    let mut i: usize = 0;
    proof {
        assert(deref_all(shown@).take(0) =~= Seq::<Finding>::empty());
        assert(smell_pairs(Seq::<Finding>::empty()) =~= Seq::<(Finding, Smell)>::empty());
    }
    while i < shown.len()
        invariant
            i <= shown@.len(),
            rows_match(out@, smell_pairs(deref_all(shown@).take(i as int))),
        decreases shown@.len() - i,
    {
        let f: &Finding = shown[i];
        let ghost prev = out@;
        let ghost fs = deref_all(shown@);
        let ghost ps = smell_pairs(fs.take(i as int));
        push_finding_rows(&mut out, f);
        proof {
            assert(fs[i as int] == *f);
            assert(fs.take(i + 1).drop_last() =~= fs.take(i as int));
            assert(fs.take(i + 1).last() == *f);
            let tail = f.smells@.map_values(|sm: Smell| (*f, sm));
            assert(smell_pairs(fs.take(i + 1)) == ps + tail);
            assert forall|k: int| 0 <= k < out@.len() implies row_of(#[trigger] out@[k], (ps + tail)[k].0, (ps + tail)[k].1) by {
                if k < prev.len() {
                    assert(out@[k] == out@.take(prev.len() as int)[k]);
                } else {
                    assert(out@[prev.len() + (k - prev.len())] == out@[k]);
                }
            }
        }
        i = i + 1;
    }
    proof {
        assert(deref_all(shown@).take(shown@.len() as int) =~= deref_all(shown@));
    }
    out
}

/// Distribution rows: a category's wire name and count each.
fn smell_count_rows(v: &Vec<(SmellCategory, u32)>) -> (r: Vec<CountRow>)
    ensures
        r@.len() == v@.len(),
        forall|k: int| 0 <= k < r@.len() ==> (#[trigger] r@[k]).name@ == v@[k].0.wire() && r@[k].count == v@[k].1,
{
    let mut out: Vec<CountRow> = Vec::new();
    let mut i: usize = 0;
    while i < v.len()
        invariant
            i <= v@.len(),
            out@.len() == i,
            forall|k: int| 0 <= k < i ==> (#[trigger] out@[k]).name@ == v@[k].0.wire() && out@[k].count == v@[k].1,
        decreases v@.len() - i,
    {
        let (c, n) = v[i];
        out.push(CountRow { name: c.as_wire_str(), count: n });
        i = i + 1;
    }
    out
}

/// Distribution rows: a severity's label and count each.
fn severity_count_rows(v: &Vec<(Severity, u32)>) -> (r: Vec<CountRow>)
    ensures
        r@.len() == v@.len(),
        forall|k: int| 0 <= k < r@.len() ==> (#[trigger] r@[k]).name@ == label(v@[k].0) && r@[k].count == v@[k].1,
{
    let mut out: Vec<CountRow> = Vec::new();
    let mut i: usize = 0;
    while i < v.len()
        invariant
            i <= v@.len(),
            out@.len() == i,
            forall|k: int| 0 <= k < i ==> (#[trigger] out@[k]).name@ == label(v@[k].0) && out@[k].count == v@[k].1,
        decreases v@.len() - i,
    {
        let (s, n) = v[i];
        out.push(CountRow { name: severity_label(s), count: n });
        i = i + 1;
    }
    out
}

/// The markdown model of `report` for `meta` under `options`.
pub fn build_model(report: &Report, meta: &AdapterMeta, options: &EmitOptions) -> (r: MarkdownModel)
    ensures
        r.tool_name@ == meta.tool_name@,
        r.tool_version@ == meta.tool_version@,
        r.pass_fail@ == (if report.passed { "PASS"@ } else { "FAIL"@ }),
        r.total_tests == report.summary.total_tests,
        r.total_files == report.summary.total_files,
        r.exceeding_threshold == report.summary.exceeding_threshold,
        r.max_score@ == decimal(report.summary.max_scrap_score as nat) + ".0"@,
        r.smell_rows@.len() == report.summary.distribution.by_smell@.len(),
        forall|k: int| 0 <= k < r.smell_rows@.len() ==> (#[trigger] r.smell_rows@[k]).name@
            == report.summary.distribution.by_smell@[k].0.wire() && r.smell_rows@[k].count
            == report.summary.distribution.by_smell@[k].1,
        r.severity_rows@.len() == report.summary.distribution.by_severity@.len(),
        forall|k: int| 0 <= k < r.severity_rows@.len() ==> (#[trigger] r.severity_rows@[k]).name@
            == label(report.summary.distribution.by_severity@[k].0) && r.severity_rows@[k].count
            == report.summary.distribution.by_severity@[k].1,
        r.has_distribution == (r.smell_rows@.len() > 0),
        r.eligible_count == eligible(report_findings(report.files@), options.only_failing).len(),
        rows_match(
            r.rows@,
            smell_pairs(
                eligible(report_findings(report.files@), options.only_failing).take(
                    shown_len(r.eligible_count as nat, options.top) as int,
                ),
            ),
        ),
        r.truncated == (shown_len(r.eligible_count as nat, options.top) < r.eligible_count),
        r.shown_count == r.rows@.len(),
        r.has_rows == (r.rows@.len() > 0),
{
    let (shown, eligible_count) = view_findings(report, options);
    let truncated = shown.len() < eligible_count;
    let rows = finding_rows(&shown);
    let smell_rows = smell_count_rows(&report.summary.distribution.by_smell);
    let severity_rows = severity_count_rows(&report.summary.distribution.by_severity);
    let mut max_score = String::new();
    push_decimal(&mut max_score, report.summary.max_scrap_score);
    push_str(&mut max_score, ".0");
    let has_distribution = smell_rows.len() > 0;
    let has_rows = rows.len() > 0;
    let shown_count = rows.len();
    MarkdownModel {
        tool_name: meta.tool_name,
        tool_version: meta.tool_version,
        pass_fail: if report.passed {
            "PASS"
        } else {
            "FAIL"
        },
        total_tests: report.summary.total_tests,
        total_files: report.summary.total_files,
        exceeding_threshold: report.summary.exceeding_threshold,
        max_score,
        has_distribution,
        smell_rows,
        severity_rows,
        has_rows,
        truncated,
        shown_count,
        eligible_count,
        rows,
    }
}

/// `s` without the newlines that end it.
pub open spec fn without_trailing_newlines(s: Seq<char>) -> Seq<char>
    decreases s.len(),
{
    if s.len() > 0 && s.last() == '\n' {
        without_trailing_newlines(s.drop_last())
    } else {
        s
    }
}

/// The rendered page ending in exactly one newline: blank lines at its
/// end dropped, and the final newline added where it is missing.
pub fn end_with_one_newline(page: &str) -> (r: String)
    ensures
        r@ == without_trailing_newlines(page@) + seq!['\n'],
{
    let cs = chars_of(page);
    let mut n: usize = cs.len();
    assert(cs@.take(n as int) =~= cs@);
    while n > 0 && cs[n - 1] == '\n'
        invariant
            cs@ == page@,
            n <= cs@.len(),
            without_trailing_newlines(page@) == without_trailing_newlines(cs@.take(n as int)),
        decreases n,
    {
        assert(cs@.take(n as int).drop_last() =~= cs@.take(n - 1));
        n = n - 1;
    }
    let mut out = String::new();
    let mut i: usize = 0;
    while i < n
        invariant
            n <= cs@.len(),
            i <= n,
            out@ == cs@.take(i as int),
        decreases n - i,
    {
        push_char(&mut out, cs[i]);
        assert(cs@.take(i + 1) =~= cs@.take(i as int).push(cs@[i as int]));
        i = i + 1;
    }
    push_char(&mut out, '\n');
    out
}

} // verus!
