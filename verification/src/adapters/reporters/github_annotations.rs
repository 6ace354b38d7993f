//! GitHub Actions inline annotations: one `::warning` workflow command
//! per smell, sorted by penalty (highest first), then file, line and
//! column, truncated at a limit with a trailing `::notice` naming how
//! many smells were withheld.
//!
//! Like SARIF this translates the whole gate: it ignores view-shaping
//! options and walks every smell of the report.

use vstd::prelude::*;

use crate::domain::finding::Finding;
use crate::domain::report::{lemma_smell_pairs_append, report_findings, smell_location, smell_pairs, FileReport, Report};
use crate::domain::smell::Smell;
use crate::domain::types::Span;
use crate::paths::{path_is_absolute, path_strip_prefix, portable_path, spec_strip_prefix, starts_at_root};
pub use crate::paths::relative_or_unchanged;
use crate::text::{chars_of, decimal, lemma_seq_lt_asymmetric, lemma_seq_lt_irreflexive,
    lemma_seq_lt_total, lemma_seq_lt_transitive, owned, push_char, push_decimal, push_str,
    seq_lt, str_lt};

verus! {

/// Escape of one character of message data.
pub open spec fn escape_message_char(c: char) -> Seq<char> {
    if c == '%' {
        "%25"@
    } else if c == '\r' {
        "%0D"@
    } else if c == '\n' {
        "%0A"@
    } else {
        seq![c]
    }
}

/// Escape of one character in a property value: the message escape
/// plus the property delimiters `:` and `,`.
pub open spec fn escape_property_char(c: char) -> Seq<char> {
    if c == ':' {
        "%3A"@
    } else if c == ',' {
        "%2C"@
    } else {
        escape_message_char(c)
    }
}

/// Message-data escape of `s`: `%`, CR and LF percent-encoded.
pub open spec fn escape_message(s: Seq<char>) -> Seq<char>
    decreases s.len(),
{
    if s.len() == 0 {
        Seq::empty()
    } else {
        escape_message(s.drop_last()) + escape_message_char(s.last())
    }
}

/// Property-value escape of `s`: `%`, CR, LF, `:` and `,`
/// percent-encoded.
pub open spec fn escape_property(s: Seq<char>) -> Seq<char>
    decreases s.len(),
{
    if s.len() == 0 {
        Seq::empty()
    } else {
        escape_property(s.drop_last()) + escape_property_char(s.last())
    }
}

/// Escaped message data holds no line break, so it cannot end the
/// workflow command early.
pub proof fn lemma_escape_message_no_line_break(s: Seq<char>)
    ensures
        !escape_message(s).contains('\r'),
        !escape_message(s).contains('\n'),
    decreases s.len(),
{
    reveal_strlit("%25");
    reveal_strlit("%0D");
    reveal_strlit("%0A");
    if s.len() > 0 {
        lemma_escape_message_no_line_break(s.drop_last());
        let a = escape_message(s.drop_last());
        let b = escape_message_char(s.last());
        assert forall|i: int| 0 <= i < (a + b).len() implies (a + b)[i] != '\r' && (a + b)[i]
            != '\n' by {
            if i < a.len() {
                assert((a + b)[i] == a[i]);
            } else {
                assert((a + b)[i] == b[i - a.len()]);
            }
        }
    }
}

/// An escaped property value holds no line break and no property
/// delimiter, so it cannot split the property list.
pub proof fn lemma_escape_property_no_delimiter(s: Seq<char>)
    ensures
        !escape_property(s).contains('\r'),
        !escape_property(s).contains('\n'),
        !escape_property(s).contains(':'),
        !escape_property(s).contains(','),
    decreases s.len(),
{
    reveal_strlit("%25");
    reveal_strlit("%0D");
    reveal_strlit("%0A");
    reveal_strlit("%3A");
    reveal_strlit("%2C");
    if s.len() > 0 {
        lemma_escape_property_no_delimiter(s.drop_last());
        let a = escape_property(s.drop_last());
        let b = escape_property_char(s.last());
        assert forall|i: int| 0 <= i < (a + b).len() implies (a + b)[i] != '\r' && (a + b)[i]
            != '\n' && (a + b)[i] != ':' && (a + b)[i] != ',' by {
            if i < a.len() {
                assert((a + b)[i] == a[i]);
            } else {
                assert((a + b)[i] == b[i - a.len()]);
            }
        }
    }
}

/// Percent-encode `%`, CR and LF (message data after the final `::`).
/// `%` is encoded first-class, so the encodings are never re-escaped.
pub fn gha_escape(s: &str) -> (r: String)
    ensures
        r@ == escape_message(s@),
        !r@.contains('\r'),
        !r@.contains('\n'),
{
    let cs = chars_of(s);
    let mut out = String::new();
    let mut i: usize = 0;
    assert(cs@.take(0) =~= Seq::<char>::empty());
    while i < cs.len()
        invariant
            cs@ == s@,
            i <= cs@.len(),
            out@ == escape_message(cs@.take(i as int)),
        decreases cs@.len() - i,
    {
        let c = cs[i];
        if c == '%' {
            push_str(&mut out, "%25");
        } else if c == '\r' {
            push_str(&mut out, "%0D");
        } else if c == '\n' {
            push_str(&mut out, "%0A");
        } else {
            push_char(&mut out, c);
        }
        assert(cs@.take(i + 1).drop_last() =~= cs@.take(i as int));
        i = i + 1;
        assert(out@ =~= escape_message(cs@.take(i as int)));
    }
    assert(cs@.take(cs@.len() as int) =~= cs@);
    proof {
        lemma_escape_message_no_line_break(s@);
    }
    out
}

/// Percent-encode the five characters special in a property value: `%`,
/// CR, LF and the delimiters `:` and `,`.
pub fn gha_escape_property(s: &str) -> (r: String)
    ensures
        r@ == escape_property(s@),
        !r@.contains('\r'),
        !r@.contains('\n'),
        !r@.contains(':'),
        !r@.contains(','),
{
    let cs = chars_of(s);
    let mut out = String::new();
    let mut i: usize = 0;
    assert(cs@.take(0) =~= Seq::<char>::empty());
    while i < cs.len()
        invariant
            cs@ == s@,
            i <= cs@.len(),
            out@ == escape_property(cs@.take(i as int)),
        decreases cs@.len() - i,
    {
        let c = cs[i];
        if c == ':' {
            push_str(&mut out, "%3A");
        } else if c == ',' {
            push_str(&mut out, "%2C");
        } else if c == '%' {
            push_str(&mut out, "%25");
        } else if c == '\r' {
            push_str(&mut out, "%0D");
        } else if c == '\n' {
            push_str(&mut out, "%0A");
        } else {
            push_char(&mut out, c);
        }
        assert(cs@.take(i + 1).drop_last() =~= cs@.take(i as int));
        i = i + 1;
        assert(out@ =~= escape_property(cs@.take(i as int)));
    }
    assert(cs@.take(cs@.len() as int) =~= cs@);
    proof {
        lemma_escape_property_no_delimiter(s@);
    }
    out
}

/// What relativizing `file` against the working directory `cwd` can give
/// as `shown`, on every platform: a portable path that does not start at
/// the root comes back unchanged, and a changed path is, for portable
/// texts, what stripping `cwd` leaves of `file`.
pub open spec fn relativized(file: Seq<char>, cwd: Seq<char>, shown: Seq<char>) -> bool {
    &&& (portable_path(file) && !starts_at_root(file) ==> shown == file)
    &&& (shown != file ==> (portable_path(file) && portable_path(cwd) ==> spec_strip_prefix(file, cwd) == Some(shown)))
}

/// The path shown for `file` when the working directory is `cwd`.
pub open spec fn shown_path(file: Seq<char>, cwd: Option<&str>, shown: Seq<char>) -> bool {
    match cwd {
        None => shown == file,
        Some(c) => relativized(file, c@, shown),
    }
}

/// Strip the working-directory prefix from an absolute `file_path` so
/// annotations name repository-relative files. Relative paths, paths
/// outside `cwd`, and any path when no `cwd` is known pass through
/// unchanged. Which paths are absolute is the platform's decision
/// ([`path_is_absolute`]); [`relative_or_unchanged`] states the result for
/// each of its answers.
pub fn relativize_path(file_path: &str, cwd: Option<&str>) -> (r: String)
    ensures
        shown_path(file_path@, cwd, r@),
{
    match cwd {
        None => owned(file_path),
        Some(c) => {
            let absolute = path_is_absolute(file_path);
            let stripped = if absolute {
                path_strip_prefix(file_path, c)
            } else {
                None
            };
            relative_or_unchanged(file_path, absolute, stripped)
        },
    }
}

/// One annotation candidate: the sort keys and the display fields of a
/// smell within its finding.
#[derive(Debug)]
pub struct Annotation {
    /// Penalty of the smell (primary sort key, highest first).
    pub penalty: u32,
    /// Path of the test's file.
    pub file: String,
    /// Start line of the smell's location.
    pub line: u32,
    /// Start column of the smell's location.
    pub column: u32,
    /// Annotation header: the smell's wire name and penalty.
    pub title: String,
    /// The smell's follow-up message.
    pub message: String,
}

/// Annotation header of a smell: `<wire name> (penalty <n>)`.
pub open spec fn title_text(sm: Smell) -> Seq<char> {
    sm.category.wire() + " (penalty "@ + decimal(sm.penalty as nat) + ")"@
}

/// `a` is the annotation of smell `sm` of finding `f`.
pub open spec fn annotation_of(a: Annotation, f: Finding, sm: Smell) -> bool {
    &&& a.penalty == sm.penalty
    &&& a.file@ == f.test.file_path@
    &&& a.line == smell_location(f, sm).start_line
    &&& a.column == smell_location(f, sm).start_column
    &&& a.title@ == title_text(sm)
    &&& a.message@ == sm.ai_actionability_message@
}

/// `anns` are the annotations of `fs`, one per smell, in order.
pub open spec fn annotations_match(anns: Seq<Annotation>, fs: Seq<Finding>) -> bool {
    &&& anns.len() == smell_pairs(fs).len()
    &&& forall|k: int|
        0 <= k < anns.len() ==> annotation_of(
            #[trigger] anns[k],
            smell_pairs(fs)[k].0,
            smell_pairs(fs)[k].1,
        )
}

/// Strict presentation order on annotation keys: penalty descending,
/// then file, line and column ascending.
pub open spec fn key_lt(a: Annotation, b: Annotation) -> bool {
    ||| a.penalty > b.penalty
    ||| a.penalty == b.penalty && seq_lt(a.file@, b.file@)
    ||| a.penalty == b.penalty && a.file@ == b.file@ && a.line < b.line
    ||| a.penalty == b.penalty && a.file@ == b.file@ && a.line == b.line && a.column < b.column
}

/// Both annotations have the same sort key.
pub open spec fn key_eq(a: Annotation, b: Annotation) -> bool {
    a.penalty == b.penalty && a.file@ == b.file@ && a.line == b.line && a.column == b.column
}

/// Annotation `i` is presented before annotation `j`: smaller key, or
/// equal key and earlier in the report (a stable sort).
pub open spec fn ann_before(anns: Seq<Annotation>, i: int, j: int) -> bool {
    key_lt(anns[i], anns[j]) || (key_eq(anns[i], anns[j]) && i < j)
}

/// `order` lists every index of `anns` exactly once, in presentation
/// order.
pub open spec fn is_presentation_order(anns: Seq<Annotation>, order: Seq<usize>) -> bool {
    &&& order.len() == anns.len()
    &&& forall|k: int| 0 <= k < order.len() ==> (#[trigger] order[k]) < anns.len()
    &&& forall|k1: int, k2: int|
        0 <= k1 < k2 < order.len() ==> ann_before(anns, #[trigger] order[k1] as int, #[trigger] order[k2] as int)
}

/// Keys are ordered one way, the other, or equal.
pub proof fn lemma_key_trichotomy(a: Annotation, b: Annotation)
    ensures
        key_lt(a, b) || key_lt(b, a) || key_eq(a, b),
{
    if a.file@ != b.file@ {
        lemma_seq_lt_total(a.file@, b.file@);
    }
}

/// The key order is transitive and never relates equal keys.
pub proof fn lemma_key_order(a: Annotation, b: Annotation, c: Annotation)
    ensures
        key_lt(a, b) && key_lt(b, c) ==> key_lt(a, c),
        key_lt(a, b) ==> !key_lt(b, a) && !key_eq(a, b),
        key_eq(a, b) && key_lt(b, c) ==> key_lt(a, c),
        key_lt(a, b) && key_eq(b, c) ==> key_lt(a, c),
{
    lemma_seq_lt_irreflexive(a.file@);
    if seq_lt(a.file@, b.file@) {
        lemma_seq_lt_asymmetric(a.file@, b.file@);
    }
    if seq_lt(a.file@, b.file@) && seq_lt(b.file@, c.file@) {
        lemma_seq_lt_transitive(a.file@, b.file@, c.file@);
    }
}

/// Evaluates [`key_lt`].
fn key_precedes(a: &Annotation, b: &Annotation) -> (r: bool)
    ensures
        r == key_lt(*a, *b),
{
    if a.penalty != b.penalty {
        return a.penalty > b.penalty;
    }
    if a.file != b.file {
        return str_lt(a.file.as_str(), b.file.as_str());
    }
    proof {
        lemma_seq_lt_irreflexive(a.file@);
    }
    if a.line != b.line {
        return a.line < b.line;
    }
    a.column < b.column
}

/// The presentation order of `anns`: a stable sort by penalty
/// (highest first), then file, line and column.
pub fn presentation_order(anns: &Vec<Annotation>) -> (order: Vec<usize>)
    ensures
        is_presentation_order(anns@, order@),
{
    let mut order: Vec<usize> = Vec::new();
    let mut i: usize = 0;
    while i < anns.len()
        invariant
            i <= anns@.len(),
            order@.len() == i,
            forall|k: int| 0 <= k < order@.len() ==> (#[trigger] order@[k]) < i,
            forall|k1: int, k2: int|
                0 <= k1 < k2 < order@.len() ==> ann_before(anns@, #[trigger] order@[k1] as int, #[trigger] order@[k2] as int),
        decreases anns@.len() - i,
    {
        let mut p: usize = 0;
        let mut found = false;
        while !found && p < order.len()
            invariant
                i < anns@.len(),
                p <= order@.len(),
                forall|k: int| 0 <= k < order@.len() ==> (#[trigger] order@[k]) < i,
                forall|q: int| 0 <= q < p ==> ann_before(anns@, #[trigger] order@[q] as int, i as int),
                found ==> p < order@.len() && ann_before(anns@, i as int, order@[p as int] as int),
            decreases order@.len() - p + if found {
                0int
            } else {
                1int
            },
        {
            let x = order[p];
            if key_precedes(&anns[i], &anns[x]) {
                found = true;
            } else {
                proof {
                    lemma_key_trichotomy(anns@[x as int], anns@[i as int]);
                }
                p = p + 1;
            }
        }
        let ghost old_order = order@;
        order.insert(p, i);
        proof {
            assert(order@ == old_order.insert(p as int, i));
            assert forall|k1: int, k2: int|
                0 <= k1 < k2 < order@.len() implies ann_before(anns@, #[trigger] order@[k1] as int, #[trigger] order@[k2] as int) by {
                lemma_before_insert(anns@, old_order, p as int, i as int, found, k1, k2);
            }
        }
        i = i + 1;
    }
    order
}

/// `ann_before` is transitive.
pub proof fn lemma_before_transitive(anns: Seq<Annotation>, a: int, b: int, c: int)
    requires
        ann_before(anns, a, b),
        ann_before(anns, b, c),
    ensures
        ann_before(anns, a, c),
{
    lemma_key_order(anns[a], anns[b], anns[c]);
}

/// Inserting `i` at `p` keeps the order sorted when every entry before
/// `p` precedes `i` and `i` precedes the entry at `p`.
pub proof fn lemma_before_insert(
    anns: Seq<Annotation>,
    order: Seq<usize>,
    p: int,
    i: int,
    found: bool,
    k1: int,
    k2: int,
)
    requires
        0 <= p <= order.len(),
        0 <= i <= usize::MAX,
        forall|k1: int, k2: int|
            0 <= k1 < k2 < order.len() ==> ann_before(anns, #[trigger] order[k1] as int, #[trigger] order[k2] as int),
        forall|q: int| 0 <= q < p ==> ann_before(anns, #[trigger] order[q] as int, i),
        found ==> p < order.len() && ann_before(anns, i, order[p] as int),
        !found ==> p == order.len(),
        0 <= k1 < k2 < order.len() + 1,
    ensures
        ann_before(anns, order.insert(p, i as usize)[k1] as int, order.insert(p, i as usize)[k2] as int),
{
    let n = order.insert(p, i as usize);
    if k2 < p {
        assert(n[k1] == order[k1] && n[k2] == order[k2]);
    } else if k2 == p {
        assert(n[k2] == i as usize);
        assert(n[k1] == order[k1]);
    } else if k1 > p {
        assert(n[k1] == order[k1 - 1] && n[k2] == order[k2 - 1]);
    } else if k1 == p {
        assert(n[k1] == i as usize);
        assert(n[k2] == order[k2 - 1]);
        if k2 - 1 > p {
            lemma_before_transitive(anns, i, order[p] as int, order[k2 - 1] as int);
        }
    } else {
        assert(n[k1] == order[k1]);
        assert(n[k2] == order[k2 - 1]);
        if k2 - 1 > p {
            lemma_before_transitive(anns, i, order[p] as int, order[k2 - 1] as int);
        }
        lemma_before_transitive(anns, order[k1] as int, i, order[k2 - 1] as int);
    }
}

/// `anns` are the annotations of `pairs`, one each, in order.
pub open spec fn pairs_match(anns: Seq<Annotation>, pairs: Seq<(Finding, Smell)>) -> bool {
    &&& anns.len() == pairs.len()
    &&& forall|k: int| 0 <= k < anns.len() ==> annotation_of(#[trigger] anns[k], pairs[k].0, pairs[k].1)
}

/// Append the annotation of every smell of `f`, in order.
fn push_finding_annotations(out: &mut Vec<Annotation>, f: &Finding)
    ensures
        final(out)@.len() == old(out)@.len() + f.smells@.len(),
        final(out)@.take(old(out)@.len() as int) == old(out)@,
        forall|k: int|
            0 <= k < f.smells@.len() ==> annotation_of(
                #[trigger] final(out)@[old(out)@.len() + k],
                *f,
                f.smells@[k],
            ),
{
    let ghost start = out@;
    let mut k: usize = 0;
    while k < f.smells.len()
        invariant
            k <= f.smells@.len(),
            out@.len() == start.len() + k,
            out@.take(start.len() as int) == start,
            forall|m: int| 0 <= m < k ==> annotation_of(#[trigger] out@[start.len() + m], *f, f.smells@[m]),
        decreases f.smells@.len() - k,
    {
        let sm = &f.smells[k];
        let span = match sm.span {
            Some(s) => s,
            None => f.test.span,
        };
        let mut title = owned(sm.category.as_wire_str());
        push_str(&mut title, " (penalty ");
        push_decimal(&mut title, sm.penalty as u128);
        push_str(&mut title, ")");
        assert(title@ =~= title_text(*sm));
        let ann = Annotation {
            penalty: sm.penalty,
            file: f.test.file_path.to_string(),
            line: span.start_line,
            column: span.start_column,
            title,
            message: sm.ai_actionability_message.clone(),
        };
        let ghost before = out@;
        out.push(ann);
        proof {
            assert(out@.take(start.len() as int) =~= before.take(start.len() as int));
            assert forall|m: int| 0 <= m < k + 1 implies annotation_of(#[trigger] out@[start.len() + m], *f, f.smells@[m]) by {
                if m < k {
                    assert(out@[start.len() + m] == before[start.len() + m]);
                }
            }
        }
        k = k + 1;
    }
}

/// Every annotation of the report, one per smell, in file, finding and
/// smell order.
pub fn collect_annotations(report: &Report) -> (r: Vec<Annotation>)
    ensures
        annotations_match(r@, report_findings(report.files@)),
{
    let mut out: Vec<Annotation> = Vec::new();
    let mut i: usize = 0;
    proof {
        assert(report.files@.take(0) =~= Seq::<FileReport>::empty());
        assert(smell_pairs(Seq::<Finding>::empty()) =~= Seq::<(Finding, Smell)>::empty());
    }
    while i < report.files.len()
        invariant
            i <= report.files@.len(),
            pairs_match(out@, smell_pairs(report_findings(report.files@.take(i as int)))),
        decreases report.files@.len() - i,
    {
        let file = &report.files[i];
        let ghost before_file = report_findings(report.files@.take(i as int));
        let mut j: usize = 0;
        proof {
            assert(file.findings@.take(0) =~= Seq::<Finding>::empty());
            assert(before_file + file.findings@.take(0) =~= before_file);
        }
        while j < file.findings.len()
            invariant
                j <= file.findings@.len(),
                pairs_match(out@, smell_pairs(before_file + file.findings@.take(j as int))),
            decreases file.findings@.len() - j,
        {
            let f = &file.findings[j];
            let ghost prev = out@;
            let ghost ps = smell_pairs(before_file + file.findings@.take(j as int));
            push_finding_annotations(&mut out, f);
            proof {
                let next = before_file + file.findings@.take(j + 1);
                assert(next.drop_last() =~= before_file + file.findings@.take(j as int));
                assert(next.last() == *f);
                let tail = f.smells@.map_values(|sm: Smell| (*f, sm));
                assert(smell_pairs(next) == ps + tail);
                assert forall|k: int| 0 <= k < out@.len() implies annotation_of(#[trigger] out@[k], (ps + tail)[k].0, (ps + tail)[k].1) by {
                    if k < prev.len() {
                        assert(out@[k] == out@.take(prev.len() as int)[k]);
                    } else {
                        assert(out@[prev.len() + (k - prev.len())] == out@[k]);
                    }
                }
            }
            j = j + 1;
        }
        proof {
            assert(file.findings@.take(file.findings@.len() as int) =~= file.findings@);
            let nf = report.files@.take(i + 1);
            assert(nf.drop_last() =~= report.files@.take(i as int));
            assert(nf.last() == *file);
        }
        i = i + 1;
    }
    proof {
        assert(report.files@.take(report.files@.len() as int) =~= report.files@);
    }
    out
}

/// One `::warning` workflow command: escaped file, line, column and
/// title properties, then the escaped message.
pub open spec fn warning_line(a: Annotation, file: Seq<char>) -> Seq<char> {
    "::warning file="@ + escape_property(file) + ",line="@ + decimal(a.line as nat) + ",col="@
        + decimal(a.column as nat) + ",title="@ + escape_property(a.title@) + "::"@
        + escape_message(a.message@) + "\n"@
}

/// The warnings of the first `files.len()` annotations in `order`,
/// `files[k]` being the path shown for the `k`-th.
pub open spec fn warnings_text(anns: Seq<Annotation>, order: Seq<usize>, files: Seq<Seq<char>>) -> Seq<
    char,
>
    decreases files.len(),
{
    if files.len() == 0 {
        Seq::empty()
    } else {
        warnings_text(anns, order, files.drop_last()) + warning_line(
            anns[order[files.len() - 1] as int],
            files.last(),
        )
    }
}

/// The trailing notice when `total` exceeds `limit`.
pub open spec fn notice_text(total: nat, limit: nat) -> Seq<char> {
    if total > limit {
        "::notice::"@ + decimal((total - limit) as nat)
            + " more test smells detected; see the full report for the complete list\n"@
    } else {
        Seq::empty()
    }
}

/// Number of annotations shown under `limit`.
pub open spec fn shown_count(total: nat, limit: nat) -> nat {
    if total < limit {
        total
    } else {
        limit
    }
}

/// The workflow commands for `report`: one `::warning` per smell in
/// presentation order, the first `annotation_limit` of them, then a
/// `::notice` naming how many were withheld. File paths are shown
/// relative to `cwd` (unchanged when `cwd` is `None`), as
/// [`relativize_path`] gives them.
pub fn render(report: &Report, annotation_limit: usize, cwd: Option<&str>) -> (r: String)
    ensures
        exists|anns: Seq<Annotation>, order: Seq<usize>, files: Seq<Seq<char>>|
            #![trigger warnings_text(anns, order, files)]
            {
                &&& annotations_match(anns, report_findings(report.files@))
                &&& is_presentation_order(anns, order)
                &&& files.len() == shown_count(anns.len(), annotation_limit as nat)
                &&& forall|k: int|
                    0 <= k < files.len() ==> shown_path(anns[order[k] as int].file@, cwd, #[trigger] files[k])
                &&& r@ == warnings_text(anns, order, files) + notice_text(
                    anns.len(),
                    annotation_limit as nat,
                )
            },
{
    let anns = collect_annotations(report);
    let order = presentation_order(&anns);
    let total = anns.len();
    let take = if total < annotation_limit {
        total
    } else {
        annotation_limit
    };
    let mut out = String::new();
    let ghost mut files: Seq<Seq<char>> = Seq::empty();
    let mut k: usize = 0;
    while k < take
        invariant
            take <= total,
            total == anns@.len(),
            is_presentation_order(anns@, order@),
            k <= take,
            files.len() == k,
            forall|m: int| 0 <= m < files.len() ==> shown_path(anns@[order@[m] as int].file@, cwd, #[trigger] files[m]),
            out@ == warnings_text(anns@, order@, files),
        decreases take - k,
    {
        let a = &anns[order[k]];
        let file = relativize_path(a.file.as_str(), cwd);
        let ef = gha_escape_property(file.as_str());
        let et = gha_escape_property(a.title.as_str());
        let em = gha_escape(a.message.as_str());
        let ghost before = out@;
        push_str(&mut out, "::warning file=");
        push_str(&mut out, ef.as_str());
        push_str(&mut out, ",line=");
        push_decimal(&mut out, a.line as u128);
        push_str(&mut out, ",col=");
        push_decimal(&mut out, a.column as u128);
        push_str(&mut out, ",title=");
        push_str(&mut out, et.as_str());
        push_str(&mut out, "::");
        push_str(&mut out, em.as_str());
        push_str(&mut out, "\n");
        proof {
            let nf = files.push(file@);
            assert(nf.drop_last() =~= files);
            assert(out@ =~= before + warning_line(*a, file@));
            files = nf;
        }
        k = k + 1;
    }
    if total > take {
        push_str(&mut out, "::notice::");
        push_decimal(&mut out, (total - take) as u128);
        push_str(
            &mut out,
            " more test smells detected; see the full report for the complete list\n",
        );
    }
    proof {
        assert(out@ =~= warnings_text(anns@, order@, files) + notice_text(
            anns@.len(),
            annotation_limit as nat,
        ));
    }
    out
}

} // verus!
