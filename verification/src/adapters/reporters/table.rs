//! Table reporter: a header line, a box-drawn table (one row per smell
//! or per finding), and a verdict footer.
//!
//! Rows follow the view options: findings scoring zero are dropped
//! under `only_failing`, and `top` counts rows, not findings. The box
//! layout is drawn by `comfy-table`.

use vstd::prelude::*;

use crate::adapter_meta::AdapterMeta;
use crate::adapters::reporters::json::{eligible, shown_len, view_findings, EmitOptions};
use crate::adapters::reporters::markdown::{label, severity_label};
use crate::domain::classification::Severity;
use crate::domain::finding::Finding;
use crate::domain::report::{
    deref_all, finding_refs, lemma_smell_pairs_append, report_findings, smell_location, smell_pairs,
    FileReport, Report,
};
use crate::domain::smell::Smell;
use crate::domain::threshold::ThresholdMode;
use crate::cli::init::occurs_in;
use crate::text::{decimal, owned, push_decimal, push_str};

verus! {

/// Row grouping of the table.
#[derive(Debug, Clone, Copy, PartialEq, Eq, Hash)]
pub enum RowGrouping {
    /// One row per smell.
    Smell,
    /// One row per finding.
    Finding,
}

impl Default for RowGrouping {
    fn default() -> (r: Self)
        ensures
            r == RowGrouping::Smell,
    {
        RowGrouping::Smell
    }
}

/// Display options of the table.
#[derive(Debug, Clone, Copy)]
pub struct TableOptions {
    /// Keep at most this many rows (`None`: all).
    pub top: Option<usize>,
    /// Drop findings scoring zero.
    pub only_failing: bool,
    /// Color the severity cells and the verdict.
    pub use_color: bool,
    /// Row grouping.
    pub grouping: RowGrouping,
}

impl Default for TableOptions {
    fn default() -> (r: Self)
        ensures
            r.top is None,
            !r.only_failing,
            !r.use_color,
            r.grouping == RowGrouping::Smell,
    {
        TableOptions { top: None, only_failing: false, use_color: false, grouping: RowGrouping::default() }
    }
}

/// One table row: its cell texts, and the severity that colors its
/// severity cell (smell rows only).
#[derive(Debug, Clone)]
pub struct TableRow {
    /// Cell texts, in column order.
    pub cells: Vec<String>,
    /// Severity of a smell row.
    pub severity: Option<Severity>,
}

/// Score cell: the score with no decimals.
pub open spec fn score_text(score: u128) -> Seq<char> {
    decimal(score as nat)
}

/// `row` is the smell row of `sm` within `f`: `file:line`, smell,
/// severity, penalty, score.
pub open spec fn smell_row_of(row: TableRow, f: Finding, sm: Smell) -> bool {
    &&& row.cells@.len() == 5
    &&& row.cells@[0]@ == f.test.file_path@ + ":"@ + decimal(smell_location(f, sm).start_line as nat)
    &&& row.cells@[1]@ == sm.category.wire()
    &&& row.cells@[2]@ == label(sm.severity)
    &&& row.cells@[3]@ == decimal(sm.penalty as nat)
    &&& row.cells@[4]@ == score_text(f.scrap_score)
    &&& row.severity == Some(sm.severity)
}

/// The wire names of `smells`, comma-separated.
pub open spec fn smell_list(smells: Seq<Smell>) -> Seq<char>
    decreases smells.len(),
{
    if smells.len() == 0 {
        Seq::empty()
    } else {
        smell_list(smells.drop_last()) + (if smells.len() > 1 {
            ", "@
        } else {
            Seq::empty()
        }) + smells.last().category.wire()
    }
}

/// `row` is the finding row of `f`: file, test, smells, score, verdict.
pub open spec fn finding_row_of(row: TableRow, f: Finding) -> bool {
    &&& row.cells@.len() == 5
    &&& row.cells@[0]@ == f.test.file_path@
    &&& row.cells@[1]@ == f.test.qualified_name@
    &&& row.cells@[2]@ == smell_list(f.smells@)
    &&& row.cells@[3]@ == score_text(f.scrap_score)
    &&& row.cells@[4]@ == (if f.exceeds_threshold { "FAIL"@ } else { "PASS"@ })
    &&& row.severity is None
}

/// The findings the rows are drawn from.
pub open spec fn row_findings(report: Report, only_failing: bool) -> Seq<Finding> {
    eligible(report_findings(report.files@), only_failing)
}

/// The cells of the smell row of `sm` within `f`.
pub fn build_smell_row(f: &Finding, sm: &Smell) -> (r: TableRow)
    ensures
        smell_row_of(r, *f, *sm),
{
    let line = match sm.span {
        Some(s) => s.start_line,
        None => f.test.span.start_line,
    };
    let mut file_line = f.test.file_path.to_string();
    push_str(&mut file_line, ":");
    push_decimal(&mut file_line, line as u128);
    let mut cells: Vec<String> = Vec::new();
    cells.push(file_line);
    cells.push(owned(sm.category.as_wire_str()));
    cells.push(owned(severity_label(sm.severity)));
    let mut pen = String::new();
    push_decimal(&mut pen, sm.penalty as u128);
    cells.push(pen);
    let mut score = String::new();
    push_decimal(&mut score, f.scrap_score);
    cells.push(score);
    TableRow { cells, severity: Some(sm.severity) }
}

/// The cells of the finding row of `f`.
pub fn build_finding_row(f: &Finding) -> (r: TableRow)
    ensures
        finding_row_of(r, *f),
{
    let mut list = String::new();
    let mut i: usize = 0;
    assert(f.smells@.take(0) =~= Seq::<Smell>::empty());
    while i < f.smells.len()
        invariant
            i <= f.smells@.len(),
            list@ == smell_list(f.smells@.take(i as int)),
        decreases f.smells@.len() - i,
    {
        if i > 0 {
            push_str(&mut list, ", ");
        }
        push_str(&mut list, f.smells[i].category.as_wire_str());
        assert(f.smells@.take(i + 1).drop_last() =~= f.smells@.take(i as int));
        i = i + 1;
        assert(list@ =~= smell_list(f.smells@.take(i as int)));
    }
    assert(f.smells@.take(f.smells@.len() as int) =~= f.smells@);
    let mut cells: Vec<String> = Vec::new();
    cells.push(f.test.file_path.to_string());
    cells.push(owned(f.test.qualified_name.as_str()));
    cells.push(list);
    let mut score = String::new();
    push_decimal(&mut score, f.scrap_score);
    cells.push(score);
    cells.push(owned(if f.exceeds_threshold {
        "FAIL"
    } else {
        "PASS"
    }));
    TableRow { cells, severity: None }
}

/// Append the smell rows of every smell of `f`.
fn push_smell_rows(out: &mut Vec<TableRow>, f: &Finding)
    ensures
        final(out)@.len() == old(out)@.len() + f.smells@.len(),
        final(out)@.take(old(out)@.len() as int) == old(out)@,
        forall|k: int|
            0 <= k < f.smells@.len() ==> smell_row_of(#[trigger] final(out)@[old(out)@.len() + k], *f, f.smells@[k]),
{
    let ghost start = out@;
    let mut k: usize = 0;
    while k < f.smells.len()
        invariant
            k <= f.smells@.len(),
            out@.len() == start.len() + k,
            out@.take(start.len() as int) == start,
            forall|m: int| 0 <= m < k ==> smell_row_of(#[trigger] out@[start.len() + m], *f, f.smells@[m]),
        decreases f.smells@.len() - k,
    {
        let row = build_smell_row(f, &f.smells[k]);
        let ghost before = out@;
        out.push(row);
        proof {
            assert(out@.take(start.len() as int) =~= before.take(start.len() as int));
            assert forall|m: int| 0 <= m < k + 1 implies smell_row_of(#[trigger] out@[start.len() + m], *f, f.smells@[m]) by {
                if m < k {
                    assert(out@[start.len() + m] == before[start.len() + m]);
                }
            }
        }
        k = k + 1;
    }
}

/// The smell rows of every smell of `fs`, in order.
fn all_smell_rows(fs: &Vec<&Finding>) -> (r: Vec<TableRow>)
    ensures
        r@.len() == smell_pairs(deref_all(fs@)).len(),
        forall|k: int| 0 <= k < r@.len() ==> smell_row_of(#[trigger] r@[k], smell_pairs(deref_all(fs@))[k].0, smell_pairs(deref_all(fs@))[k].1),
{
    let mut out: Vec<TableRow> = Vec::new();
    let mut i: usize = 0;
    proof {
        assert(deref_all(fs@).take(0) =~= Seq::<Finding>::empty());
        assert(smell_pairs(Seq::<Finding>::empty()) =~= Seq::<(Finding, Smell)>::empty());
    }
    while i < fs.len()
        invariant
            i <= fs@.len(),
            out@.len() == smell_pairs(deref_all(fs@).take(i as int)).len(),
            forall|k: int| 0 <= k < out@.len() ==> smell_row_of(#[trigger] out@[k], smell_pairs(deref_all(fs@).take(i as int))[k].0, smell_pairs(deref_all(fs@).take(i as int))[k].1),
        decreases fs@.len() - i,
    {
        let f: &Finding = fs[i];
        let ghost prev = out@;
        let ghost all = deref_all(fs@);
        let ghost ps = smell_pairs(all.take(i as int));
        push_smell_rows(&mut out, f);
        proof {
            assert(all[i as int] == *f);
            assert(all.take(i + 1).drop_last() =~= all.take(i as int));
            assert(all.take(i + 1).last() == *f);
            let tail = f.smells@.map_values(|sm: Smell| (*f, sm));
            assert(smell_pairs(all.take(i + 1)) == ps + tail);
            assert forall|k: int| 0 <= k < out@.len() implies smell_row_of(#[trigger] out@[k], (ps + tail)[k].0, (ps + tail)[k].1) by {
                if k < prev.len() {
                    assert(out@[k] == out@.take(prev.len() as int)[k]);
                } else {
                    assert(out@[prev.len() + (k - prev.len())] == out@[k]);
                }
            }
        }
        i = i + 1;
    }
    proof {
        assert(deref_all(fs@).take(fs@.len() as int) =~= deref_all(fs@));
    }
    out
}

/// Smell rows of the eligible findings, at most `top` of them.
pub fn smell_rows(report: &Report, options: &TableOptions) -> (r: Vec<TableRow>)
    ensures
        ({
            let pairs = smell_pairs(row_findings(*report, options.only_failing));
            let n = shown_len(pairs.len(), options.top);
            &&& r@.len() == n
            &&& forall|k: int| 0 <= k < n ==> smell_row_of(#[trigger] r@[k], pairs[k].0, pairs[k].1)
        }),
{
    let (fs, _) = view_findings(report, &EmitOptions { top: None, only_failing: options.only_failing });
    let mut rows = all_smell_rows(&fs);
    if let Some(n) = options.top {
        if n < rows.len() {
            rows.truncate(n);
        }
    }
    proof {
        let el = eligible(report_findings(report.files@), options.only_failing);
        assert(deref_all(fs@) =~= el.take(el.len() as int));
        assert(el.take(el.len() as int) =~= el);
    }
    rows
}

/// Finding rows of the eligible findings, at most `top` of them.
pub fn finding_rows(report: &Report, options: &TableOptions) -> (r: Vec<TableRow>)
    ensures
        ({
            let fs = row_findings(*report, options.only_failing);
            let n = shown_len(fs.len(), options.top);
            &&& r@.len() == n
            &&& forall|k: int| 0 <= k < n ==> finding_row_of(#[trigger] r@[k], fs[k])
        }),
{
    let (fs, count) = view_findings(report, &EmitOptions { top: options.top, only_failing: options.only_failing });
    let mut rows: Vec<TableRow> = Vec::new();
    let mut i: usize = 0;
    while i < fs.len()
        invariant
            i <= fs@.len(),
            rows@.len() == i,
            forall|k: int| 0 <= k < i ==> finding_row_of(#[trigger] rows@[k], *fs@[k]),
        decreases fs@.len() - i,
    {
        rows.push(build_finding_row(fs[i]));
        i = i + 1;
    }
    proof {
        let el = row_findings(*report, options.only_failing);
        let shown = el.take(shown_len(count as nat, options.top) as int);
        assert(deref_all(fs@).len() == fs@.len());
        assert forall|k: int| 0 <= k < rows@.len() implies finding_row_of(#[trigger] rows@[k], el[k]) by {
            assert(deref_all(fs@)[k] == *fs@[k]);
            assert(shown[k] == el[k]);
        }
    }
    rows
}

/// The identification header: tool, version, tests inspected, findings,
/// and how many exceed the mode's threshold.
pub open spec fn header_text(report: Report, meta: AdapterMeta, mode: ThresholdMode) -> Seq<char> {
    meta.tool_name@ + " "@ + meta.tool_version@ + " — "@ + decimal(report.summary.total_tests as nat)
        + " tests inspected, "@ + decimal(report_findings(report.files@).len()) + " findings, "@
        + decimal(report.summary.exceeding_threshold as nat) + " exceeding '"@ + mode.wire()
        + "' threshold\n"@
}

/// The verdict footer, green or red when colored.
pub open spec fn footer_text(report: Report, mode: ThresholdMode, use_color: bool) -> Seq<char> {
    let line = (if report.passed { "PASSED"@ } else { "FAILED"@ }) + " — "@ + decimal(
        report.summary.exceeding_threshold as nat,
    ) + " of "@ + decimal(report.summary.total_tests as nat) + " tests exceed threshold under '"@
        + mode.wire() + "' mode"@;
    if use_color {
        (if report.passed { "\u{1b}[32m"@ } else { "\u{1b}[31m"@ }) + line + "\u{1b}[0m\n"@
    } else {
        line + "\n"@
    }
}

/// Law: the footer states the verdict, then how many tests exceed the
/// threshold out of how many were inspected (the exceeding count first),
/// under the mode's name, whether or not it is colored.
pub proof fn law_footer_counts_exceeding_of_total(report: Report, mode: ThresholdMode, use_color: bool)
    ensures
        occurs_in(
            (if report.passed { "PASSED"@ } else { "FAILED"@ }) + " — "@ + decimal(
                report.summary.exceeding_threshold as nat,
            ) + " of "@ + decimal(report.summary.total_tests as nat) + " tests exceed threshold under '"@
                + mode.wire() + "' mode"@,
            footer_text(report, mode, use_color),
        ),
{
    let line = (if report.passed { "PASSED"@ } else { "FAILED"@ }) + " — "@ + decimal(
        report.summary.exceeding_threshold as nat,
    ) + " of "@ + decimal(report.summary.total_tests as nat) + " tests exceed threshold under '"@
        + mode.wire() + "' mode"@;
    let f = footer_text(report, mode, use_color);
    if use_color {
        let pre = if report.passed { "\u{1b}[32m"@ } else { "\u{1b}[31m"@ };
        let i: int = pre.len() as int;
        assert(f =~= pre + line + "\u{1b}[0m\n"@);
        assert(f.subrange(i, i + line.len()) =~= line);
    } else {
        let i: int = 0;
        assert(f =~= line + "\n"@);
        assert(f.subrange(i, i + line.len()) =~= line);
    }
}

/// Number of findings across the files.
fn count_findings(files: &Vec<FileReport>) -> (r: usize)
    requires
        report_findings(files@).len() <= usize::MAX,
    ensures
        r == report_findings(files@).len(),
{
    let mut n: usize = 0;
    let mut i: usize = 0;
    proof {
        assert(files@.take(0) =~= Seq::<FileReport>::empty());
    }
    while i < files.len()
        invariant
            i <= files@.len(),
            n == report_findings(files@.take(i as int)).len(),
            report_findings(files@).len() <= usize::MAX,
        decreases files@.len() - i,
    {
        proof {
            assert(files@.take(i + 1).drop_last() =~= files@.take(i as int));
            lemma_report_findings_prefix(files@, i + 1);
        }
        n = n + files[i].findings.len();
        i = i + 1;
    }
    proof {
        assert(files@.take(files@.len() as int) =~= files@);
    }
    n
}

/// The findings of a prefix of the files never outnumber those of all.
pub proof fn lemma_report_findings_prefix(files: Seq<FileReport>, n: int)
    requires
        0 <= n <= files.len(),
    ensures
        report_findings(files.take(n)).len() <= report_findings(files).len(),
    decreases files.len(),
{
    if n < files.len() {
        assert(files.drop_last().take(n) =~= files.take(n));
        lemma_report_findings_prefix(files.drop_last(), n);
    } else {
        assert(files.take(n) =~= files);
    }
}

/// Renders [`header_text`].
pub fn write_header(report: &Report, meta: &AdapterMeta, mode: ThresholdMode) -> (r: String)
    requires
        report_findings(report.files@).len() <= usize::MAX,
    ensures
        r@ == header_text(*report, *meta, mode),
{
    let mut s = owned(meta.tool_name);
    push_str(&mut s, " ");
    push_str(&mut s, meta.tool_version);
    push_str(&mut s, " — ");
    push_decimal(&mut s, report.summary.total_tests as u128);
    push_str(&mut s, " tests inspected, ");
    push_decimal(&mut s, count_findings(&report.files) as u128);
    push_str(&mut s, " findings, ");
    push_decimal(&mut s, report.summary.exceeding_threshold as u128);
    push_str(&mut s, " exceeding '");
    push_str(&mut s, mode.as_wire_str());
    push_str(&mut s, "' threshold\n");
    assert(s@ =~= header_text(*report, *meta, mode));
    s
}

/// Renders [`footer_text`].
pub fn write_footer(report: &Report, mode: ThresholdMode, use_color: bool) -> (r: String)
    ensures
        r@ == footer_text(*report, mode, use_color),
{
    let mut line = owned(if report.passed {
        "PASSED"
    } else {
        "FAILED"
    });
    push_str(&mut line, " — ");
    push_decimal(&mut line, report.summary.exceeding_threshold as u128);
    push_str(&mut line, " of ");
    push_decimal(&mut line, report.summary.total_tests as u128);
    push_str(&mut line, " tests exceed threshold under '");
    push_str(&mut line, mode.as_wire_str());
    push_str(&mut line, "' mode");
    if use_color {
        let mut s = owned(if report.passed {
            "\u{1b}[32m"
        } else {
            "\u{1b}[31m"
        });
        push_str(&mut s, line.as_str());
        push_str(&mut s, "\u{1b}[0m\n");
        assert(s@ =~= footer_text(*report, mode, use_color));
        s
    } else {
        push_str(&mut line, "\n");
        assert(line@ =~= footer_text(*report, mode, use_color));
        line
    }
}

/// Lets `comfy_table::Table` stand in signatures; its contents stay
/// opaque.
#[verifier::external_type_specification]
#[verifier::external_body]
pub struct ExTable(comfy_table::Table);

/// Lets `comfy_table::Cell` stand in signatures; its contents stay
/// opaque.
#[verifier::external_type_specification]
#[verifier::external_body]
pub struct ExCell(comfy_table::Cell);

/// Foreground color of a severity cell.
#[derive(Debug, Clone, Copy, PartialEq, Eq)]
pub enum CellColor {
    /// Red.
    Red,
    /// Yellow.
    Yellow,
    /// Dark grey.
    DarkGrey,
}

/// Color of a severity: high red, moderate yellow, low dark grey.
pub fn severity_color(severity: Severity) -> (r: CellColor)
    ensures
        severity == Severity::High ==> r == CellColor::Red,
        severity == Severity::Moderate ==> r == CellColor::Yellow,
        severity == Severity::Low ==> r == CellColor::DarkGrey,
{
    match severity {
        Severity::High => CellColor::Red,
        Severity::Moderate => CellColor::Yellow,
        Severity::Low => CellColor::DarkGrey,
    }
}

/// What a `comfy_table::Table` holds as its header: the text of each
/// header cell, or `None` while no header is set.
pub uninterp spec fn table_header(table: comfy_table::Table) -> Option<Seq<Seq<char>>>;

/// What a `comfy_table::Table` holds as its rows: the text of each cell
/// of each row, in the order the rows were added.
pub uninterp spec fn table_rows(table: comfy_table::Table) -> Seq<Seq<Seq<char>>>;

/// The text a `comfy_table::Cell` holds (what `Cell::content` gives).
pub uninterp spec fn cell_content(cell: comfy_table::Cell) -> Seq<char>;

/// An empty table (`comfy_table::Table::new`): no header, no rows.
#[verifier::external_body]
fn table_new() -> (r: comfy_table::Table)
    ensures
        table_header(r) is None,
        table_rows(r) == Seq::<Seq<Seq<char>>>::empty(),
{
    comfy_table::Table::new()
}

/// Use box-drawing borders (`Table::load_preset` with `UTF8_FULL`),
/// which sets the border characters and leaves header and rows alone.
#[verifier::external_body]
fn table_load_utf8_full(table: &mut comfy_table::Table)
    ensures
        table_header(*final(table)) == table_header(*old(table)),
        table_rows(*final(table)) == table_rows(*old(table)),
{
    table.load_preset(comfy_table::presets::UTF8_FULL);
}

/// Wrap cell content to the table width
/// (`Table::set_content_arrangement` with `Dynamic`), which sets the
/// arrangement and leaves header and rows alone.
#[verifier::external_body]
fn table_arrange_dynamic(table: &mut comfy_table::Table)
    ensures
        table_header(*final(table)) == table_header(*old(table)),
        table_rows(*final(table)) == table_rows(*old(table)),
{
    table.set_content_arrangement(comfy_table::ContentArrangement::Dynamic);
}

/// Fix the table width (`Table::set_width`), which sets the width and
/// leaves header and rows alone.
#[verifier::external_body]
fn table_set_width(table: &mut comfy_table::Table, width: u16)
    ensures
        table_header(*final(table)) == table_header(*old(table)),
        table_rows(*final(table)) == table_rows(*old(table)),
{
    table.set_width(width);
}

/// Set the header row (`Table::set_header`): one cell per title, holding
/// the title's text; the rows stay as they were.
#[verifier::external_body]
fn table_set_header(table: &mut comfy_table::Table, header: Vec<&'static str>)
    ensures
        table_header(*final(table)) == Some(header@.map_values(|h: &str| h@)),
        table_rows(*final(table)) == table_rows(*old(table)),
{
    table.set_header(header);
}

/// Append a row (`Table::add_row`): the rows gain one at the end, made
/// of the given cells in order; the header stays as it was.
#[verifier::external_body]
fn table_add_row(table: &mut comfy_table::Table, cells: Vec<comfy_table::Cell>)
    ensures
        table_header(*final(table)) == table_header(*old(table)),
        table_rows(*final(table)) == table_rows(*old(table)).push(cells@.map_values(|c: comfy_table::Cell| cell_content(c))),
{
    table.add_row(cells);
}

/// A cell holding `text` (`comfy_table::Cell::new`, which splits the
/// text at newlines; `Cell::content` joins the pieces back).
#[verifier::external_body]
fn cell_new(text: &str) -> (r: comfy_table::Cell)
    ensures
        cell_content(r) == text@,
{
    comfy_table::Cell::new(text)
}

/// The cell with a foreground color (`Cell::fg`), which sets the color
/// and keeps the text.
#[verifier::external_body]
fn cell_fg(cell: comfy_table::Cell, color: CellColor) -> (r: comfy_table::Cell)
    ensures
        cell_content(r) == cell_content(cell),
{
    match color {
        CellColor::Red => cell.fg(comfy_table::Color::Red),
        CellColor::Yellow => cell.fg(comfy_table::Color::Yellow),
        CellColor::DarkGrey => cell.fg(comfy_table::Color::DarkGrey),
    }
}

/// The drawn table (`Display` of `Table`). The layout follows the
/// terminal's width and whether output is a terminal decides whether
/// colors are drawn, so nothing is stated of the text.
#[verifier::external_body]
fn table_text(table: &comfy_table::Table) -> String {
    format!("{table}")
}

/// The cell texts of `row`.
pub open spec fn cell_texts(row: TableRow) -> Seq<Seq<char>> {
    row.cells@.map_values(|c: String| c@)
}

/// Build the table of `rows` under `header`, 120 columns wide with
/// box-drawing borders, coloring the severity cell of smell rows when
/// `use_color`: its header holds the titles and its rows the cells of
/// `rows`, in order.
pub fn build_table(header: Vec<&'static str>, rows: &Vec<TableRow>, use_color: bool) -> (t: comfy_table::Table)
    ensures
        table_header(t) == Some(header@.map_values(|h: &str| h@)),
        table_rows(t) == rows@.map_values(|row: TableRow| cell_texts(row)),
{
    let ghost titles = header@.map_values(|h: &str| h@);
    let mut table = table_new();
    table_load_utf8_full(&mut table);
    table_arrange_dynamic(&mut table);
    table_set_width(&mut table, 120);
    table_set_header(&mut table, header);
    let mut i: usize = 0;
    assert(rows@.take(0).map_values(|row: TableRow| cell_texts(row)) =~= Seq::<Seq<Seq<char>>>::empty());
    while i < rows.len()
        invariant
            i <= rows@.len(),
            table_header(table) == Some(titles),
            table_rows(table) == rows@.take(i as int).map_values(|row: TableRow| cell_texts(row)),
        decreases rows@.len() - i,
    {
        let row = &rows[i];
        let mut cells: Vec<comfy_table::Cell> = Vec::new();
        let mut k: usize = 0;
        while k < row.cells.len()
            invariant
                k <= row.cells@.len(),
                cells@.len() == k,
                forall|m: int| 0 <= m < k ==> cell_content(#[trigger] cells@[m]) == row.cells@[m]@,
            decreases row.cells@.len() - k,
        {
            let cell = cell_new(row.cells[k].as_str());
            let cell = match row.severity {
                Some(s) => if use_color && k == 2 {
                    cell_fg(cell, severity_color(s))
                } else {
                    cell
                },
                None => cell,
            };
            cells.push(cell);
            k = k + 1;
        }
        let ghost before = table_rows(table);
        proof {
            assert(cells@.map_values(|c: comfy_table::Cell| cell_content(c)) =~= cell_texts(*row));
            assert(rows@.take(i + 1).map_values(|row: TableRow| cell_texts(row)) =~= before.push(cell_texts(*row)));
        }
        table_add_row(&mut table, cells);
        i = i + 1;
    }
    assert(rows@.take(rows@.len() as int) =~= rows@);
    table
}

/// The column titles of a grouping.
pub open spec fn column_titles(grouping: RowGrouping) -> Seq<Seq<char>> {
    match grouping {
        RowGrouping::Smell => seq!["file:line"@, "Smell"@, "Severity"@, "Penalty"@, "Score"@],
        RowGrouping::Finding => seq!["File"@, "Test"@, "Smells"@, "Score"@, "Pass/Fail"@],
    }
}

/// The cells of the smell row of `sm` within `f`.
pub open spec fn smell_cells(f: Finding, sm: Smell) -> Seq<Seq<char>> {
    seq![
        f.test.file_path@ + ":"@ + decimal(smell_location(f, sm).start_line as nat),
        sm.category.wire(),
        label(sm.severity),
        decimal(sm.penalty as nat),
        score_text(f.scrap_score),
    ]
}

/// The cells of the finding row of `f`.
pub open spec fn finding_cells(f: Finding) -> Seq<Seq<char>> {
    seq![
        f.test.file_path@,
        f.test.qualified_name@,
        smell_list(f.smells@),
        score_text(f.scrap_score),
        if f.exceeds_threshold { "FAIL"@ } else { "PASS"@ },
    ]
}

/// The rows the table of `report` holds under `options`: one per smell
/// or per finding of the eligible findings, at most `top` of them.
pub open spec fn table_row_cells(report: Report, options: TableOptions) -> Seq<Seq<Seq<char>>> {
    match options.grouping {
        RowGrouping::Smell => {
            let pairs = smell_pairs(row_findings(report, options.only_failing));
            Seq::new(shown_len(pairs.len(), options.top), |k: int| smell_cells(pairs[k].0, pairs[k].1))
        },
        RowGrouping::Finding => {
            let fs = row_findings(report, options.only_failing);
            Seq::new(shown_len(fs.len(), options.top), |k: int| finding_cells(fs[k]))
        },
    }
}

/// The report text around a drawn table: header, table, footer.
pub open spec fn framed_table(report: Report, meta: AdapterMeta, options: TableOptions, mode: ThresholdMode, drawn: Seq<char>) -> Seq<char> {
    header_text(report, meta, mode) + drawn + "\n"@ + footer_text(report, mode, options.use_color)
}

/// The whole table report: header, table, footer. The table drawn holds
/// the grouping's column titles and [`table_row_cells`] as its rows; how
/// `comfy-table` lays them out depends on the terminal.
pub fn render(report: &Report, meta: &AdapterMeta, options: &TableOptions, mode: ThresholdMode) -> (r: String)
    requires
        report_findings(report.files@).len() <= usize::MAX,
    ensures
        exists|t: comfy_table::Table, drawn: Seq<char>|
            #![trigger table_rows(t), framed_table(*report, *meta, *options, mode, drawn)]
            {
                &&& table_header(t) == Some(column_titles(options.grouping))
                &&& table_rows(t) == table_row_cells(*report, *options)
                &&& r@ == framed_table(*report, *meta, *options, mode, drawn)
            },
{
    let mut out = write_header(report, meta, mode);
    let t = match options.grouping {
        RowGrouping::Smell => {
            let rows = smell_rows(report, options);
            let t = build_table(vec!["file:line", "Smell", "Severity", "Penalty", "Score"], &rows, options.use_color);
            proof {
                let pairs = smell_pairs(row_findings(*report, options.only_failing));
                assert forall|k: int| 0 <= k < rows@.len() implies #[trigger] cell_texts(rows@[k]) == smell_cells(pairs[k].0, pairs[k].1) by {
                    assert(cell_texts(rows@[k]) =~= smell_cells(pairs[k].0, pairs[k].1));
                }
                assert(table_rows(t) =~= table_row_cells(*report, *options));
            }
            t
        },
        RowGrouping::Finding => {
            let rows = finding_rows(report, options);
            let t = build_table(vec!["File", "Test", "Smells", "Score", "Pass/Fail"], &rows, options.use_color);
            proof {
                let fs = row_findings(*report, options.only_failing);
                assert forall|k: int| 0 <= k < rows@.len() implies #[trigger] cell_texts(rows@[k]) == finding_cells(fs[k]) by {
                    assert(cell_texts(rows@[k]) =~= finding_cells(fs[k]));
                }
                assert(table_rows(t) =~= table_row_cells(*report, *options));
            }
            t
        },
    };
    let table = table_text(&t);
    push_str(&mut out, table.as_str());
    push_str(&mut out, "\n");
    let footer = write_footer(report, mode, options.use_color);
    push_str(&mut out, footer.as_str());
    assert(out@ =~= framed_table(*report, *meta, *options, mode, table@));
    out
}

} // verus!
