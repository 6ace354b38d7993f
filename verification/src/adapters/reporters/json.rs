//! The view block of the JSON envelope: the findings shown under the
//! display options (only failing findings, at most `top` of them) and
//! the summary of exactly those.
//!
//! The view never changes the report itself, which the envelope carries
//! verbatim as the truthful result. The wire encoding of the envelope
//! is done by the caller.

use vstd::prelude::*;

use crate::domain::finding::Finding;
use crate::domain::parsed::ParseDiagnostic;
use crate::domain::report::{
    deref_all, finding_refs, lemma_score_sum_append, lemma_score_sum_prefix, lemma_smell_total_append,
    lemma_smell_total_prefix, report_findings, score_sum, smell_total, Report, Summary,
};
use crate::domain::source::SourceDiagnostic;

verus! {

/// Display options of the view: `top` keeps at most that many findings
/// after filtering; `only_failing` drops findings scoring zero.
#[derive(Debug, Clone, Copy)]
pub struct EmitOptions {
    /// Keep at most this many findings (`None`: all).
    pub top: Option<usize>,
    /// Drop findings whose score is zero.
    pub only_failing: bool,
}

impl Default for EmitOptions {
    fn default() -> (r: Self)
        ensures
            r.top is None,
            !r.only_failing,
    {
        EmitOptions { top: None, only_failing: false }
    }
}

/// Echo of the options that produced the view.
#[derive(Debug, Clone, Copy, PartialEq, Eq)]
pub struct ViewSpec {
    /// Echo of [`EmitOptions::top`].
    pub top: Option<usize>,
    /// Echo of [`EmitOptions::only_failing`].
    pub only_failing: bool,
}

/// The view block: the shown findings and their summary.
#[derive(Debug)]
pub struct ViewBlock<'a> {
    /// Options that produced this view.
    pub spec: ViewSpec,
    /// Findings left after filtering, before truncation.
    pub eligible_count: usize,
    /// Whether truncation dropped any eligible finding.
    pub truncated: bool,
    /// Shown findings, in report order.
    pub shown: Vec<&'a Finding>,
    /// Summary of the shown findings.
    pub shown_summary: Summary,
}

/// Reserved for baseline comparison output; always empty.
#[derive(Debug, Clone, Copy, Default)]
pub struct DeltaBlock {}

/// Pipeline diagnostics surfaced in verbose mode.
#[derive(Debug)]
pub struct DiagnosticsBlock {
    /// Discovery diagnostics.
    pub source: Vec<SourceDiagnostic>,
    /// Parse diagnostics.
    pub parse: Vec<ParseDiagnostic>,
}

/// The findings of `fs` the filter keeps, in order.
pub open spec fn eligible(fs: Seq<Finding>, only_failing: bool) -> Seq<Finding>
    decreases fs.len(),
{
    if fs.len() == 0 {
        Seq::empty()
    } else {
        eligible(fs.drop_last(), only_failing) + if !only_failing || fs.last().scrap_score > 0 {
            seq![fs.last()]
        } else {
            Seq::empty()
        }
    }
}

/// Number of eligible findings shown under `top`.
pub open spec fn shown_len(eligible_len: nat, top: Option<usize>) -> nat {
    match top {
        Some(n) => if n < eligible_len {
            n as nat
        } else {
            eligible_len
        },
        None => eligible_len,
    }
}

/// The findings of the report, their smells and their scores fit the
/// summary's counters.
pub open spec fn summarizable(report: Report) -> bool {
    let fs = report_findings(report.files@);
    &&& fs.len() <= u32::MAX
    &&& smell_total(fs) <= u32::MAX
    &&& score_sum(fs) <= u128::MAX
}

/// Evaluates [`summarizable`].
pub fn is_summarizable(report: &Report) -> (r: bool)
    ensures
        r == summarizable(*report),
{
    let all = finding_refs(&report.files);
    let ghost fs = report_findings(report.files@);
    if all.len() > u32::MAX as usize {
        return false;
    }
    let mut smells: u64 = 0;
    let mut scores: u128 = 0;
    let mut i: usize = 0;
    proof {
        assert(fs.take(0) =~= Seq::<Finding>::empty());
    }
    while i < all.len()
        invariant
            fs == report_findings(report.files@),
            deref_all(all@) == fs,
            i <= all@.len(),
            smells == smell_total(fs.take(i as int)),
            smells <= u32::MAX,
            scores == score_sum(fs.take(i as int)),
        decreases all@.len() - i,
    {
        let f: &Finding = all[i];
        proof {
            assert(deref_all(all@)[i as int] == *f);
            lemma_smell_total_prefix(fs, i + 1);
            lemma_score_sum_prefix(fs, i + 1);
            assert(fs.take(i + 1).drop_last() =~= fs.take(i as int));
        }
        let n = f.smells.len() as u64;
        if n > u32::MAX as u64 - smells {
            return false;
        }
        if f.scrap_score > u128::MAX - scores {
            return false;
        }
        smells = smells + n;
        scores = scores + f.scrap_score;
        i = i + 1;
    }
    proof {
        assert(fs.take(fs.len() as int) =~= fs);
    }
    true
}

/// Filtering keeps a sub-collection: no more findings and no more smells.
pub proof fn lemma_eligible_bounds(fs: Seq<Finding>, only_failing: bool)
    ensures
        eligible(fs, only_failing).len() <= fs.len(),
        smell_total(eligible(fs, only_failing)) <= smell_total(fs),
        score_sum(eligible(fs, only_failing)) <= score_sum(fs),
        forall|i: int|
            0 <= i < eligible(fs, only_failing).len() ==> exists|j: int|
                0 <= j < fs.len() && fs[j] == #[trigger] eligible(fs, only_failing)[i],
    decreases fs.len(),
{
    if fs.len() > 0 {
        lemma_eligible_bounds(fs.drop_last(), only_failing);
        let e = eligible(fs.drop_last(), only_failing);
        let add = if !only_failing || fs.last().scrap_score > 0 {
            seq![fs.last()]
        } else {
            Seq::<Finding>::empty()
        };
        lemma_smell_total_append(e, add);
        lemma_score_sum_append(e, add);
        if add.len() == 1 {
            assert(add.drop_last() =~= Seq::<Finding>::empty());
            assert(smell_total(Seq::<Finding>::empty()) == 0);
            assert(score_sum(Seq::<Finding>::empty()) == 0);
            assert(add.last() == fs.last());
            assert(smell_total(add) == fs.last().smells@.len());
            assert(score_sum(add) == fs.last().scrap_score);
        } else {
            assert(add =~= Seq::<Finding>::empty());
        }
        assert(smell_total(fs) == smell_total(fs.drop_last()) + fs.last().smells@.len());
        let all = eligible(fs, only_failing);
        assert forall|i: int| 0 <= i < all.len() implies exists|j: int|
            0 <= j < fs.len() && fs[j] == #[trigger] all[i] by {
            if i < e.len() {
                assert(all[i] == e[i]);
                let j = choose|j: int| 0 <= j < fs.drop_last().len() && fs.drop_last()[j] == #[trigger] e[i];
                assert(fs[j] == fs.drop_last()[j]);
            } else {
                assert(all[i] == fs[fs.len() - 1]);
            }
        }
    }
}

/// The findings shown under `options`, in report order, and how many
/// were eligible before truncation.
pub fn view_findings<'a>(report: &'a Report, options: &EmitOptions) -> (r: (Vec<&'a Finding>, usize))
    ensures
        r.1 == eligible(report_findings(report.files@), options.only_failing).len(),
        deref_all(r.0@) == eligible(report_findings(report.files@), options.only_failing).take(
            shown_len(r.1 as nat, options.top) as int,
        ),
{
    let all = finding_refs(&report.files);
    let ghost fs = report_findings(report.files@);
    let mut filtered: Vec<&'a Finding> = Vec::new();
    let mut i: usize = 0;
    proof {
        assert(fs.take(0) =~= Seq::<Finding>::empty());
        assert(deref_all(filtered@) =~= Seq::<Finding>::empty());
    }
    while i < all.len()
        invariant
            deref_all(all@) == fs,
            i <= all@.len(),
            deref_all(filtered@) == eligible(fs.take(i as int), options.only_failing),
        decreases all@.len() - i,
    {
        let f: &'a Finding = all[i];
        proof {
            assert(deref_all(all@)[i as int] == *f);
            assert(fs.take(i + 1).drop_last() =~= fs.take(i as int));
            assert(fs.take(i + 1).last() == *f);
        }
        if !options.only_failing || f.scrap_score > 0 {
            let ghost before = filtered@;
            filtered.push(f);
            proof {
                assert(deref_all(filtered@) =~= deref_all(before) + seq![*f]);
            }
        }
        i = i + 1;
    }
    proof {
        assert(fs.take(fs.len() as int) =~= fs);
    }
    let eligible_count = filtered.len();
    if let Some(n) = options.top {
        if n < filtered.len() {
            filtered.truncate(n);
        }
    }
    proof {
        let el = eligible(fs, options.only_failing);
        assert(deref_all(filtered@) =~= el.take(shown_len(eligible_count as nat, options.top) as int));
    }
    (filtered, eligible_count)
}

/// Build the view of `report` under `options`: filter, count the
/// eligible findings, truncate to `top`, then summarize what is shown.
pub fn build_view<'a>(report: &'a Report, options: &EmitOptions) -> (r: ViewBlock<'a>)
    requires
        summarizable(*report),
    ensures
        r.spec.top == options.top,
        r.spec.only_failing == options.only_failing,
        r.eligible_count == eligible(report_findings(report.files@), options.only_failing).len(),
        deref_all(r.shown@) == eligible(report_findings(report.files@), options.only_failing).take(
            shown_len(r.eligible_count as nat, options.top) as int,
        ),
        r.truncated == (r.shown@.len() < r.eligible_count),
        r.shown_summary.summarizes(deref_all(r.shown@)),
{
    let (shown, eligible_count) = view_findings(report, options);
    let truncated = shown.len() < eligible_count;
    proof {
        let fs = report_findings(report.files@);
        let el = eligible(fs, options.only_failing);
        let sh = deref_all(shown@);
        lemma_eligible_bounds(fs, options.only_failing);
        if sh.len() > 0 {
            lemma_smell_total_prefix(el, sh.len() as int);
        }
        lemma_score_sum_prefix(el, sh.len() as int);
    }
    let shown_summary = Summary::from_findings(&shown);
    ViewBlock {
        spec: ViewSpec { top: options.top, only_failing: options.only_failing },
        eligible_count,
        truncated,
        shown,
        shown_summary,
    }
}

/// Without `only_failing` every finding is eligible.
pub proof fn law_unfiltered_view_keeps_everything(fs: Seq<Finding>)
    ensures
        eligible(fs, false) == fs,
    decreases fs.len(),
{
    if fs.len() > 0 {
        law_unfiltered_view_keeps_everything(fs.drop_last());
        assert(fs.drop_last() + seq![fs.last()] =~= fs);
    }
}

/// Under `only_failing` exactly the findings scoring above zero are
/// eligible, in order.
pub proof fn law_only_failing_keeps_scoring(fs: Seq<Finding>)
    ensures
        forall|i: int| 0 <= i < eligible(fs, true).len() ==> (#[trigger] eligible(fs, true)[i]).scrap_score > 0,
        eligible(fs, true) == fs.filter(|f: Finding| f.scrap_score > 0),
    decreases fs.len(),
{
    reveal(Seq::filter);
    if fs.len() > 0 {
        law_only_failing_keeps_scoring(fs.drop_last());
        let e = eligible(fs.drop_last(), true);
        let add = if fs.last().scrap_score > 0 { seq![fs.last()] } else { Seq::<Finding>::empty() };
        assert forall|i: int| 0 <= i < (e + add).len() implies (#[trigger] (e + add)[i]).scrap_score > 0 by {
            if i < e.len() {
                assert((e + add)[i] == e[i]);
            } else {
                assert((e + add)[i] == add[i - e.len()]);
            }
        }
        assert(e + add =~= eligible(fs, true));
    }
}

} // verus!
