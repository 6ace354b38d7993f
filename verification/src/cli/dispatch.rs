//! Dispatch decisions of the CLI: which reporter a format routes to,
//! the exit code of a run, and the texts of errors and diagnostics.
//! Writing them out is the caller's part.

use vstd::prelude::*;

use crate::adapter_meta::AdapterMeta;
use crate::adapters::reporters::stdout::{format_stdout, stdout_text};
use crate::domain::parsed::{ParseDiagnostic, ParseDiagnosticKind};
use crate::domain::report::Report;
use crate::domain::source::{SourceDiagnostic, SourceDiagnosticKind};
use crate::pipeline::{AnalyzeError, AnalyzeOutput};
use crate::cli::calendar::{
    civil_days, days_before_month, days_before_year, is_leap, lemma_cycle_start, lemma_date_within_year,
    lemma_days_before_year_increasing, lemma_leap_periodic, lemma_months_fill_year, lemma_year_step, month_len,
    valid_date, year_len,
};
use crate::text::{
    decimal, lemma_decimal_len_small, lemma_decimal_nonempty, left_pad_zeros, owned, push_char, push_decimal,
    push_decimal_padded, push_str, signed_decimal_padded,
};
use vstd::arithmetic::div_mod::{lemma_fundamental_div_mod, lemma_hoist_over_denominator, lemma_mod_multiples_vanish};

verus! {

/// Lets `serde_json::Error` stand in fields; its contents stay opaque.
#[verifier::external_type_specification]
#[verifier::external_body]
pub struct ExJsonError(serde_json::Error);

/// Output format selector.
#[derive(Debug, Clone, Copy, PartialEq, Eq)]
pub enum FormatArg {
    /// Nested JSON envelope.
    Json,
    /// Plain-text reporter.
    Stdout,
    /// Markdown (not yet routed).
    Markdown,
    /// SARIF (not yet routed).
    Sarif,
}

/// Errors of reporter dispatch.
#[derive(Debug)]
pub enum DispatchError {
    /// The JSON reporter failed.
    Json(serde_json::Error),
    /// Writing the rendered text failed.
    Io(std::io::Error),
    /// The format's reporter is not routed yet.
    NotImplemented {
        /// User-facing format token.
        format: &'static str,
        /// Tracking reference.
        tracking_issue: &'static str,
    },
}

/// What the caller writes for a format.
#[derive(Debug)]
pub enum RenderPlan {
    /// Serialize the JSON envelope.
    Json,
    /// Write this text.
    Text(String),
}

/// Route a format: JSON is serialized by the caller, stdout is
/// rendered here, markdown and SARIF are not routed yet.
pub fn plan_render(format: FormatArg, report: &Report, meta: &AdapterMeta) -> (r: Result<
    RenderPlan,
    DispatchError,
>)
    requires
        report.summary.distribution.spec_total() <= u32::MAX,
    ensures
        format == FormatArg::Json ==> r matches Ok(RenderPlan::Json),
        format == FormatArg::Stdout ==> (r matches Ok(RenderPlan::Text(t)) && t@ == stdout_text(
            *report,
            *meta,
        )),
        format == FormatArg::Markdown ==> (r matches Err(
            DispatchError::NotImplemented { format: f, tracking_issue: t },
        ) && f@ == "markdown"@ && t@ == "scrap-rs#15"@),
        format == FormatArg::Sarif ==> (r matches Err(
            DispatchError::NotImplemented { format: f, tracking_issue: t },
        ) && f@ == "sarif"@ && t@ == "scrap-rs#17"@),
{
    match format {
        FormatArg::Json => Ok(RenderPlan::Json),
        FormatArg::Stdout => Ok(RenderPlan::Text(format_stdout(report, meta))),
        FormatArg::Markdown => Err(
            DispatchError::NotImplemented { format: "markdown", tracking_issue: "scrap-rs#15" },
        ),
        FormatArg::Sarif => Err(
            DispatchError::NotImplemented { format: "sarif", tracking_issue: "scrap-rs#17" },
        ),
    }
}

/// Process exit code of a run: 0 when the threshold check succeeded, or failed under
/// `no_fail`; 1 when it failed; 3 when every file failed to parse; 2 for
/// any other error.
pub open spec fn spec_exit_code(result: Result<bool, &AnalyzeError>, no_fail: bool) -> u8 {
    match result {
        Ok(passed) => if passed || no_fail {
            0
        } else {
            1
        },
        Err(e) => if e is AllFilesFailedToParse {
            3
        } else {
            2
        },
    }
}

/// Evaluates [`spec_exit_code`].
pub fn exit_code_for(result: Result<bool, &AnalyzeError>, no_fail: bool) -> (r: u8)
    ensures
        r == spec_exit_code(result, no_fail),
{
    match result {
        Ok(true) => 0,
        Ok(false) => if no_fail {
            0
        } else {
            1
        },
        Err(AnalyzeError::AllFilesFailedToParse { .. }) => 3,
        Err(_) => 2,
    }
}

/// The message reported for a failed run: every-file parse failure
/// carries the adapter's remediation hint, other errors render as
/// themselves.
pub open spec fn error_text(err: AnalyzeError, meta: AdapterMeta) -> Seq<char> {
    match err {
        AnalyzeError::AllFilesFailedToParse { total_files } => "error: all "@ + decimal(
            total_files as nat,
        ) + " source files failed to parse (see --verbose for per-file detail)\n  hint: "@
            + meta.parse_hint@,
        other => "error: "@ + other.text(),
    }
}

/// Renders [`error_text`].
pub fn render_error(err: &AnalyzeError, meta: &AdapterMeta) -> (r: String)
    ensures
        r@ == error_text(*err, *meta),
{
    match err {
        AnalyzeError::AllFilesFailedToParse { total_files } => {
            let mut s = owned("error: all ");
            push_decimal(&mut s, *total_files as u128);
            push_str(
                &mut s,
                " source files failed to parse (see --verbose for per-file detail)\n  hint: ",
            );
            push_str(&mut s, meta.parse_hint);
            s
        },
        other => {
            let mut s = owned("error: ");
            let t = other.to_string();
            push_str(&mut s, t.as_str());
            s
        },
    }
}

/// Name of a source-diagnostic kind.
pub open spec fn source_kind_name(k: SourceDiagnosticKind) -> Seq<char> {
    match k {
        SourceDiagnosticKind::PermissionDenied => "PermissionDenied"@,
        SourceDiagnosticKind::MidwalkIo => "MidwalkIo"@,
        SourceDiagnosticKind::Other => "Other"@,
    }
}

/// Name of a parse-diagnostic kind.
pub open spec fn parse_kind_name(k: ParseDiagnosticKind) -> Seq<char> {
    match k {
        ParseDiagnosticKind::Syntax => "Syntax"@,
        ParseDiagnosticKind::UnsupportedAttribute => "UnsupportedAttribute"@,
    }
}

/// One line per source diagnostic: `source: <kind> <path>: <message>`.
pub open spec fn source_lines(ds: Seq<SourceDiagnostic>) -> Seq<char>
    decreases ds.len(),
{
    if ds.len() == 0 {
        Seq::empty()
    } else {
        source_lines(ds.drop_last()) + "source: "@ + source_kind_name(ds.last().kind) + " "@
            + ds.last().path@ + ": "@ + ds.last().message@ + "\n"@
    }
}

/// One line per parse diagnostic: `parse: <kind> <message>`.
pub open spec fn parse_lines(ds: Seq<ParseDiagnostic>) -> Seq<char>
    decreases ds.len(),
{
    if ds.len() == 0 {
        Seq::empty()
    } else {
        parse_lines(ds.drop_last()) + "parse: "@ + parse_kind_name(ds.last().kind) + " "@
            + ds.last().message@ + "\n"@
    }
}

/// The verbose diagnostics listing: source diagnostics first, then
/// parse diagnostics.
pub fn diagnostics_text(output: &AnalyzeOutput) -> (r: String)
    ensures
        r@ == source_lines(output.source_diagnostics@) + parse_lines(output.parse_diagnostics@),
{
    let mut out = String::new();
    let ds = &output.source_diagnostics;
    let mut i: usize = 0;
    assert(ds@.take(0) =~= Seq::<SourceDiagnostic>::empty());
    while i < ds.len()
        invariant
            i <= ds@.len(),
            out@ == source_lines(ds@.take(i as int)),
        decreases ds@.len() - i,
    {
        let d = &ds[i];
        push_str(&mut out, "source: ");
        push_str(
            &mut out,
            match d.kind {
                SourceDiagnosticKind::PermissionDenied => "PermissionDenied",
                SourceDiagnosticKind::MidwalkIo => "MidwalkIo",
                SourceDiagnosticKind::Other => "Other",
            },
        );
        push_str(&mut out, " ");
        push_str(&mut out, d.path.as_path());
        push_str(&mut out, ": ");
        push_str(&mut out, d.message.as_str());
        push_str(&mut out, "\n");
        assert(ds@.take(i + 1).drop_last() =~= ds@.take(i as int));
        i = i + 1;
        assert(out@ =~= source_lines(ds@.take(i as int)));
    }
    assert(ds@.take(ds@.len() as int) =~= ds@);
    let ghost head = out@;
    let ps = &output.parse_diagnostics;
    let mut j: usize = 0;
    assert(ps@.take(0) =~= Seq::<ParseDiagnostic>::empty());
    while j < ps.len()
        invariant
            j <= ps@.len(),
            out@ == head + parse_lines(ps@.take(j as int)),
        decreases ps@.len() - j,
    {
        let d = &ps[j];
        push_str(&mut out, "parse: ");
        push_str(
            &mut out,
            match d.kind {
                ParseDiagnosticKind::Syntax => "Syntax",
                ParseDiagnosticKind::UnsupportedAttribute => "UnsupportedAttribute",
            },
        );
        push_str(&mut out, " ");
        push_str(&mut out, d.message.as_str());
        push_str(&mut out, "\n");
        assert(ps@.take(j + 1).drop_last() =~= ps@.take(j as int));
        j = j + 1;
        assert(out@ =~= head + parse_lines(ps@.take(j as int)));
    }
    assert(ps@.take(ps@.len() as int) =~= ps@);
    out
}

/// Two-digit zero-padded rendering.
pub open spec fn pad2(n: int) -> Seq<char> {
    left_pad_zeros(decimal(n as nat), 2)
}

/// `YYYY-MM-DDTHH:MM:SSZ` for the date `y-m-d` and `sod` seconds into
/// the day; the year is sign-aware and zero-padded to four characters.
pub open spec fn iso_text(y: int, m: int, d: int, sod: int) -> Seq<char> {
    signed_decimal_padded(y, 4) + "-"@ + pad2(m) + "-"@ + pad2(d) + "T"@ + pad2(sod / 3600) + ":"@
        + pad2((sod / 60) % 60) + ":"@ + pad2(sod % 60) + "Z"@
}

/// `text` renders the instant `secs` seconds after 1970-01-01T00:00:00Z
/// (negative before): the calendar date of the day it falls in and the
/// time of day.
pub open spec fn renders_instant(secs: int, text: Seq<char>) -> bool {
    exists|y: int, m: int, d: int|
        #![trigger civil_days(y, m, d)]
        valid_date(y, m, d) && civil_days(y, m, d) == secs / 86400 && text == iso_text(y, m, d, secs % 86400)
}

/// `t` has the shape `YYYY-MM-DDTHH:MM:SSZ`: twenty characters with the
/// separators in their places.
pub open spec fn iso_shape(t: Seq<char>) -> bool {
    &&& t.len() == 20
    &&& t[4] == '-'
    &&& t[7] == '-'
    &&& t[10] == 'T'
    &&& t[13] == ':'
    &&& t[16] == ':'
    &&& t[19] == 'Z'
}

/// A number below 100 takes two characters padded.
proof fn lemma_pad2_len(n: int)
    requires
        0 <= n < 100,
    ensures
        pad2(n).len() == 2,
{
    lemma_decimal_len_small(n as nat);
    lemma_decimal_nonempty(n as nat);
}

/// The text of a date in years 0 through 9999, at a time of that day,
/// has the shape [`iso_shape`].
pub proof fn lemma_iso_text_shape(y: int, m: int, d: int, sod: int)
    requires
        0 <= y <= 9999,
        valid_date(y, m, d),
        0 <= sod < 86400,
    ensures
        iso_shape(iso_text(y, m, d, sod)),
{
    lemma_decimal_len_small(y as nat);
    lemma_decimal_nonempty(y as nat);
    lemma_pad2_len(m);
    lemma_pad2_len(d);
    lemma_pad2_len(sod / 3600);
    lemma_pad2_len((sod / 60) % 60);
    lemma_pad2_len(sod % 60);
    reveal_strlit("-");
    reveal_strlit("T");
    reveal_strlit(":");
    reveal_strlit("Z");
    assert(signed_decimal_padded(y, 4).len() == 4);
}

/// Law: a timestamp of an instant from 1970-01-01T00:00:00Z up to (not
/// including) 10000-01-01T00:00:00Z has the shape `YYYY-MM-DDTHH:MM:SSZ`,
/// whatever the clock read.
pub proof fn lemma_rendered_instant_shape(secs: int, text: Seq<char>)
    requires
        renders_instant(secs, text),
        0 <= secs < 253402300800,
    ensures
        iso_shape(text),
{
    let (y, m, d) = choose|y: int, m: int, d: int|
        #![trigger civil_days(y, m, d)]
        valid_date(y, m, d) && civil_days(y, m, d) == secs / 86400 && text == iso_text(y, m, d, secs % 86400);
    lemma_date_within_year(y, m, d);
    assert(days_before_year(1970) == 0);
    assert(days_before_year(10000) == 2932897);
    if y < 1969 {
        lemma_days_before_year_increasing(y + 1, 1970);
    }
    if y > 10000 {
        lemma_days_before_year_increasing(10000, y);
    }
    lemma_iso_text_shape(y, m, d, secs % 86400);
}

/// Leap rule on a positive year, as the formatter evaluates it.
fn leap_year(y: u128) -> (r: bool)
    ensures
        r == is_leap(y as int),
{
    y % 4 == 0 && (y % 100 != 0 || y % 400 == 0)
}

/// Days in a positive year.
fn days_in_year(y: u128) -> (r: u128)
    ensures
        r == year_len(y as int),
{
    if leap_year(y) {
        366
    } else {
        365
    }
}

/// Days in month `m` of a positive year.
fn days_in_month(y: u128, m: u128) -> (r: u128)
    ensures
        r == month_len(y as int, m as int),
{
    if m == 2 {
        if leap_year(y) {
            29
        } else {
            28
        }
    } else if m == 4 || m == 6 || m == 9 || m == 11 {
        30
    } else {
        31
    }
}

/// Render `secs` seconds since 1970-01-01T00:00:00Z (negative before)
/// as an ISO-8601 UTC timestamp `YYYY-MM-DDTHH:MM:SSZ`: the calendar
/// date of the day it falls in and the time of day.
pub fn format_iso_8601_from_secs(secs: i64) -> (r: String)
    ensures
        renders_instant(secs as int, r@),
{
    // Shift by whole 400-year cycles so every quantity is non-negative.
    let cycles: u128 = 800_000_000;
    let shift_days: u128 = 146097 * cycles;
    let u: u128 = (secs as i128 + (shift_days * 86400) as i128) as u128;
    let ud = u / 86400;
    let sod = u % 86400;
    proof {
        lemma_hoist_over_denominator(secs as int, shift_days as int, 86400);
        lemma_mod_multiples_vanish(shift_days as int, secs as int, 86400);
        assert(86400 * shift_days + secs == secs + shift_days * 86400);
        assert(ud == (secs as int) / 86400 + shift_days);
        assert(sod == (secs as int) % 86400);
    }
    // Days since the first day of year 1 - 400 * cycles.
    let n = ud + 719162;
    let e = n / 146097;
    let r0 = n % 146097;
    let ghost y0: int = 1 + 400 * (e - cycles);
    proof {
        lemma_fundamental_div_mod(n as int, 146097);
        lemma_cycle_start(e - cycles);
        assert(days_before_year(y0) == n - r0 - 719162 - shift_days);
    }
    let mut rem = r0;
    let mut off: u128 = 0;
    while rem >= days_in_year(1 + off)
        invariant
            r0 < 146097,
            rem <= r0,
            365 * off <= r0 - rem,
            rem + (days_before_year(y0 + off) - days_before_year(y0)) == r0,
            y0 == 1 + 400 * (e - cycles),
        decreases rem,
    {
        let len = days_in_year(1 + off);
        proof {
            lemma_leap_periodic(1 + off, e - cycles);
            assert(1 + off + 400 * (e - cycles) == y0 + off);
            lemma_year_step(y0 + off);
        }
        rem = rem - len;
        off = off + 1;
    }
    let ghost year: int = y0 + off;
    proof {
        lemma_leap_periodic(1 + off, e - cycles);
        assert(1 + off + 400 * (e - cycles) == year);
        assert(rem < year_len(year));
        lemma_months_fill_year(year);
    }
    let rem_y = rem;
    assert(off <= 400);
    let mut m: u128 = 1;
    while rem >= days_in_month(1 + off, m)
        invariant
            1 <= m <= 12,
            rem <= rem_y,
            rem_y < year_len(year),
            rem + days_before_month(year, m as int) == rem_y,
            year == 1 + off + 400 * (e - cycles),
            off <= 400,
            days_before_month(year, 13) == year_len(year),
            forall|mm: int| #[trigger] month_len(year, mm) == month_len(1 + off, mm),
        decreases rem,
    {
        let ml = days_in_month(1 + off, m);
        proof {
            if m == 12 {
                assert(days_before_month(year, 13) == days_before_month(year, 12) + month_len(year, 12));
                assert(false);
            }
        }
        rem = rem - ml;
        m = m + 1;
    }
    let d = rem + 1;
    let h = sod / 3600;
    let mi = (sod / 60) % 60;
    let s = sod % 60;
    let mut out = String::new();
    // The year, sign-aware and zero-padded to four characters.
    let below = 400 * cycles;
    let above = 400 * e + off;
    if above + 1 < below {
        push_char(&mut out, '-');
        push_decimal_padded(&mut out, below - above - 1, 3);
    } else {
        push_decimal_padded(&mut out, above + 1 - below, 4);
    }
    push_str(&mut out, "-");
    push_decimal_padded(&mut out, m, 2);
    push_str(&mut out, "-");
    push_decimal_padded(&mut out, d, 2);
    push_str(&mut out, "T");
    push_decimal_padded(&mut out, h, 2);
    push_str(&mut out, ":");
    push_decimal_padded(&mut out, mi, 2);
    push_str(&mut out, ":");
    push_decimal_padded(&mut out, s, 2);
    push_str(&mut out, "Z");
    proof {
        assert(year == above + 1 - below);
        assert(valid_date(year, m as int, d as int));
        assert(civil_days(year, m as int, d as int) == (secs as int) / 86400);
        assert(out@ =~= iso_text(year, m as int, d as int, (secs as int) % 86400));
    }
    out
}

/// Lets `std::time::SystemTime` stand in signatures; its contents stay
/// opaque.
#[verifier::external_type_specification]
#[verifier::external_body]
pub struct ExSystemTime(std::time::SystemTime);

/// The current time (`SystemTime::now`). It reads the clock, so nothing
/// is stated of it.
#[verifier::external_body]
fn system_now() -> std::time::SystemTime {
    std::time::SystemTime::now()
}

/// Whole seconds between the epoch and `t`
/// (`SystemTime::duration_since(UNIX_EPOCH)`, its `Duration` taken by
/// `as_secs`): `Ok` at or after the epoch, `Err` with the distance
/// before it. The instant is opaque here, so nothing is stated of the
/// seconds.
#[verifier::external_body]
fn seconds_from_epoch(t: std::time::SystemTime) -> Result<u64, u64> {
    match t.duration_since(std::time::UNIX_EPOCH) {
        Ok(d) => Ok(d.as_secs()),
        Err(e) => Err(e.duration().as_secs()),
    }
}

/// The signed offset of an epoch distance: `Ok(s)` after, `Err(s)`
/// before, each saturating at `i64::MAX` in magnitude.
pub open spec fn signed_offset(offset: Result<u64, u64>) -> int {
    match offset {
        Ok(s) => if s > i64::MAX { i64::MAX as int } else { s as int },
        Err(s) => if s > i64::MAX { -(i64::MAX as int) } else { -(s as int) },
    }
}

/// Computes [`signed_offset`].
pub fn offset_secs(offset: Result<u64, u64>) -> (r: i64)
    ensures
        r == signed_offset(offset),
{
    match offset {
        Ok(s) => if s > i64::MAX as u64 { i64::MAX } else { s as i64 },
        Err(s) => if s > i64::MAX as u64 { -i64::MAX } else { -(s as i64) },
    }
}

/// Render the instant `t` as ISO-8601 UTC, from its whole seconds
/// relative to the epoch.
pub fn format_iso_8601(t: std::time::SystemTime) -> (r: String)
    ensures
        exists|offset: Result<u64, u64>| renders_instant(#[trigger] signed_offset(offset), r@),
{
    let offset = seconds_from_epoch(t);
    let secs = offset_secs(offset);
    let r = format_iso_8601_from_secs(secs);
    assert(renders_instant(signed_offset(offset), r@));
    r
}

/// The current UTC time as ISO-8601 (`YYYY-MM-DDTHH:MM:SSZ` for years
/// 0 to 9999).
pub fn now_iso_8601() -> (r: String)
    ensures
        exists|offset: Result<u64, u64>| renders_instant(#[trigger] signed_offset(offset), r@),
{
    format_iso_8601(system_now())
}

} // verus!
