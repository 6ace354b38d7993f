//! Plain-text stdout reporter: a header, a summary line, then every
//! finding under its file with one line per smell.
//!
//! View-shaping options are not consumed here.

use vstd::prelude::*;

use crate::adapter_meta::AdapterMeta;
use crate::domain::finding::Finding;
use crate::domain::report::{FileReport, Report};
use crate::domain::smell::Smell;
use crate::text::{decimal, push_decimal, push_str};

verus! {

/// One line per smell: `    - <category> (<severity>)`.
pub open spec fn smell_lines(smells: Seq<Smell>) -> Seq<char>
    decreases smells.len(),
{
    if smells.len() == 0 {
        Seq::empty()
    } else {
        smell_lines(smells.drop_last()) + "    - "@ + smells.last().category.wire() + " ("@
            + smells.last().severity.wire() + ")\n"@
    }
}

/// Law: the line for smell `k` of a finding names that smell's own
/// category and severity: it is what the first `k + 1` smells' lines add
/// to those of the first `k`.
pub proof fn law_smell_line_names_its_smell(smells: Seq<Smell>, k: int)
    requires
        0 <= k < smells.len(),
    ensures
        smell_lines(smells.take(k + 1)) == smell_lines(smells.take(k)) + "    - "@ + smells[k].category.wire()
            + " ("@ + smells[k].severity.wire() + ")\n"@,
{
    assert(smells.take(k + 1).drop_last() =~= smells.take(k));
    assert(smells.take(k + 1).last() == smells[k]);
}

/// A finding's line (name, line range and score with one decimal), then
/// its smells.
pub open spec fn finding_block(f: Finding) -> Seq<char> {
    "  "@ + f.test.qualified_name@ + " (lines "@ + decimal(f.test.span.start_line as nat) + "-"@
        + decimal(f.test.span.end_line as nat) + ")  scrap_score="@ + decimal(
        f.scrap_score as nat,
    ) + ".0\n"@ + smell_lines(f.smells@)
}

/// The blocks of a file's findings.
pub open spec fn findings_text(fs: Seq<Finding>) -> Seq<char>
    decreases fs.len(),
{
    if fs.len() == 0 {
        Seq::empty()
    } else {
        findings_text(fs.drop_last()) + finding_block(fs.last())
    }
}

/// Every file: a blank line, `<path>:`, then its findings.
pub open spec fn files_text(files: Seq<FileReport>) -> Seq<char>
    decreases files.len(),
{
    if files.len() == 0 {
        Seq::empty()
    } else {
        files_text(files.drop_last()) + "\n"@ + files.last().file_path@ + ":\n"@ + findings_text(
            files.last().findings@,
        )
    }
}

/// The whole plain-text rendering.
pub open spec fn stdout_text(report: Report, meta: AdapterMeta) -> Seq<char> {
    meta.tool_name@ + " v"@ + meta.tool_version@ + "\n"@ + "files: "@ + decimal(
        report.summary.total_files as nat,
    ) + "    tests: "@ + decimal(report.summary.total_tests as nat) + "    findings: "@ + decimal(
        report.summary.distribution.spec_total(),
    ) + "\n"@ + if report.files@.len() == 0 {
        "no findings.\n"@
    } else {
        files_text(report.files@)
    }
}

/// Append the smell lines of `smells`.
fn push_smell_lines(out: &mut String, smells: &Vec<Smell>)
    ensures
        final(out)@ == old(out)@ + smell_lines(smells@),
{
    let ghost start = out@;
    let mut i: usize = 0;
    assert(smells@.take(0) =~= Seq::<Smell>::empty());
    while i < smells.len()
        invariant
            i <= smells@.len(),
            out@ == start + smell_lines(smells@.take(i as int)),
        decreases smells@.len() - i,
    {
        let sm = &smells[i];
        push_str(out, "    - ");
        push_str(out, sm.category.as_wire_str());
        push_str(out, " (");
        push_str(out, sm.severity.as_wire_str());
        push_str(out, ")\n");
        assert(smells@.take(i + 1).drop_last() =~= smells@.take(i as int));
        i = i + 1;
        assert(out@ =~= start + smell_lines(smells@.take(i as int)));
    }
    assert(smells@.take(smells@.len() as int) =~= smells@);
}

/// Append the blocks of `findings`.
fn push_findings(out: &mut String, findings: &Vec<Finding>)
    ensures
        final(out)@ == old(out)@ + findings_text(findings@),
{
    let ghost start = out@;
    let mut i: usize = 0;
    assert(findings@.take(0) =~= Seq::<Finding>::empty());
    while i < findings.len()
        invariant
            i <= findings@.len(),
            out@ == start + findings_text(findings@.take(i as int)),
        decreases findings@.len() - i,
    {
        let f = &findings[i];
        let ghost before = out@;
        push_str(out, "  ");
        push_str(out, f.test.qualified_name.as_str());
        push_str(out, " (lines ");
        push_decimal(out, f.test.span.start_line as u128);
        push_str(out, "-");
        push_decimal(out, f.test.span.end_line as u128);
        push_str(out, ")  scrap_score=");
        push_decimal(out, f.scrap_score);
        push_str(out, ".0\n");
        push_smell_lines(out, &f.smells);
        assert(out@ =~= before + finding_block(*f));
        assert(findings@.take(i + 1).drop_last() =~= findings@.take(i as int));
        i = i + 1;
        assert(out@ =~= start + findings_text(findings@.take(i as int)));
    }
    assert(findings@.take(findings@.len() as int) =~= findings@);
}

/// Render `report` as plain text: `<tool> v<version>`, the file, test
/// and smell counts, then either `no findings.` or every file's
/// findings with their smells.
pub fn format_stdout(report: &Report, meta: &AdapterMeta) -> (r: String)
    requires
        report.summary.distribution.spec_total() <= u32::MAX,
    ensures
        r@ == stdout_text(*report, *meta),
{
    let mut out = String::new();
    push_str(&mut out, meta.tool_name);
    push_str(&mut out, " v");
    push_str(&mut out, meta.tool_version);
    push_str(&mut out, "\n");
    push_str(&mut out, "files: ");
    push_decimal(&mut out, report.summary.total_files as u128);
    push_str(&mut out, "    tests: ");
    push_decimal(&mut out, report.summary.total_tests as u128);
    push_str(&mut out, "    findings: ");
    let total = report.summary.distribution.total();
    push_decimal(&mut out, total as u128);
    push_str(&mut out, "\n");
    let ghost head = out@;
    if report.files.len() == 0 {
        push_str(&mut out, "no findings.\n");
        assert(out@ =~= stdout_text(*report, *meta));
        return out;
    }
    let mut i: usize = 0;
    assert(report.files@.take(0) =~= Seq::<FileReport>::empty());
    while i < report.files.len()
        invariant
            i <= report.files@.len(),
            out@ == head + files_text(report.files@.take(i as int)),
        decreases report.files@.len() - i,
    {
        let fr = &report.files[i];
        push_str(&mut out, "\n");
        push_str(&mut out, fr.file_path.as_path());
        push_str(&mut out, ":\n");
        push_findings(&mut out, &fr.findings);
        assert(report.files@.take(i + 1).drop_last() =~= report.files@.take(i as int));
        i = i + 1;
        assert(out@ =~= head + files_text(report.files@.take(i as int)));
    }
    assert(report.files@.take(report.files@.len() as int) =~= report.files@);
    assert(out@ =~= stdout_text(*report, *meta));
    out
}

} // verus!
