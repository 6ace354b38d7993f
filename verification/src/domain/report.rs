//! Aggregated report types: `Report`, `FileReport`, `Summary`,
//! `Distribution`.
//!
//! `Summary::from_findings` is the one aggregator: both the analysis
//! pipeline (over every finding) and the JSON view (over the shown
//! findings) call it.

use vstd::prelude::*;

use crate::domain::classification::Severity;
use crate::domain::finding::{lemma_total_penalty_bound, total_penalty, Finding};
use crate::domain::smell::{Smell, SmellCategory};
use crate::domain::types::{FilePath, Span};

verus! {

/// A counter key, ordered by its declaration rank.
pub trait CountKey: Copy + Sized {
    /// Declaration rank of the key.
    spec fn spec_rank(self) -> int;

    /// Declaration rank of the key.
    fn rank(&self) -> (r: u8)
        ensures
            r == self.spec_rank(),
    ;

    /// Distinct keys have distinct ranks.
    proof fn lemma_rank_injective(a: Self, b: Self)
        ensures
            a.spec_rank() == b.spec_rank() ==> a == b,
    ;
}

impl CountKey for SmellCategory {
    open spec fn spec_rank(self) -> int {
        match self {
            SmellCategory::ZeroAssertion => 0,
            SmellCategory::TautologicalAssertion => 1,
            SmellCategory::NoOpIo => 2,
            SmellCategory::SurfaceOnlyIo => 3,
            SmellCategory::LargeExample => 4,
        }
    }

    fn rank(&self) -> (r: u8) {
        match self {
            SmellCategory::ZeroAssertion => 0,
            SmellCategory::TautologicalAssertion => 1,
            SmellCategory::NoOpIo => 2,
            SmellCategory::SurfaceOnlyIo => 3,
            SmellCategory::LargeExample => 4,
        }
    }

    proof fn lemma_rank_injective(a: Self, b: Self) {
    }
}

impl CountKey for Severity {
    open spec fn spec_rank(self) -> int {
        match self {
            Severity::Low => 0,
            Severity::Moderate => 1,
            Severity::High => 2,
        }
    }

    fn rank(&self) -> (r: u8) {
        match self {
            Severity::Low => 0,
            Severity::Moderate => 1,
            Severity::High => 2,
        }
    }

    proof fn lemma_rank_injective(a: Self, b: Self) {
    }
}

/// Sum of the counts recorded for `k` in `s`.
pub open spec fn count_of<K>(s: Seq<(K, u32)>, k: K) -> nat
    decreases s.len(),
{
    if s.len() == 0 {
        0
    } else {
        count_of(s.drop_last(), k) + if s.last().0 == k {
            s.last().1 as nat
        } else {
            0
        }
    }
}

/// Sum of all counts in `s`.
pub open spec fn count_sum<K>(s: Seq<(K, u32)>) -> nat
    decreases s.len(),
{
    if s.len() == 0 {
        0
    } else {
        count_sum(s.drop_last()) + s.last().1 as nat
    }
}

/// A counter table: keys strictly ascending by rank (so each occurs at
/// most once, in declaration order) and every count positive.
pub open spec fn tally_wf<K: CountKey>(s: Seq<(K, u32)>) -> bool {
    &&& forall|i: int, j: int|
        0 <= i < j < s.len() ==> (#[trigger] s[i]).0.spec_rank() < (#[trigger] s[j]).0.spec_rank()
    &&& forall|i: int| 0 <= i < s.len() ==> (#[trigger] s[i]).1 > 0
}

/// Replacing the count at `i` shifts the key's count and the total by
/// the difference.
pub proof fn lemma_count_update<K>(s: Seq<(K, u32)>, i: int, v: u32, k: K)
    requires
        0 <= i < s.len(),
    ensures
        count_of(s.update(i, (s[i].0, v)), k) + (if s[i].0 == k {
            s[i].1 as nat
        } else {
            0
        }) == count_of(s, k) + (if s[i].0 == k {
            v as nat
        } else {
            0
        }),
        count_sum(s.update(i, (s[i].0, v))) + s[i].1 as nat == count_sum(s) + v as nat,
    decreases s.len(),
{
    let t = s.update(i, (s[i].0, v));
    if i == s.len() - 1 {
        assert(t.drop_last() =~= s.drop_last());
    } else {
        assert(t.drop_last() =~= s.drop_last().update(i, (s[i].0, v)));
        lemma_count_update(s.drop_last(), i, v, k);
    }
}

/// Inserting an entry adds its count to its key and to the total.
pub proof fn lemma_count_insert<K>(s: Seq<(K, u32)>, i: int, e: (K, u32), k: K)
    requires
        0 <= i <= s.len(),
    ensures
        count_of(s.insert(i, e), k) == count_of(s, k) + (if e.0 == k {
            e.1 as nat
        } else {
            0
        }),
        count_sum(s.insert(i, e)) == count_sum(s) + e.1 as nat,
    decreases s.len(),
{
    let t = s.insert(i, e);
    if i == s.len() {
        assert(t.drop_last() =~= s);
    } else {
        assert(t.drop_last() =~= s.drop_last().insert(i, e));
        lemma_count_insert(s.drop_last(), i, e, k);
    }
}

/// No key counts more than the whole table.
pub proof fn lemma_count_le_total<K>(s: Seq<(K, u32)>, k: K)
    ensures
        count_of(s, k) <= count_sum(s),
    decreases s.len(),
{
    if s.len() > 0 {
        lemma_count_le_total(s.drop_last(), k);
    }
}

/// Every count of an empty table is zero.
pub proof fn lemma_count_empty<K>(k: K)
    ensures
        count_of(Seq::<(K, u32)>::empty(), k) == 0,
        count_sum(Seq::<(K, u32)>::empty()) == 0,
{
}

/// Add one occurrence of `k` to the table `v`.
pub fn tally_record<K: CountKey>(v: &mut Vec<(K, u32)>, k: K)
    requires
        tally_wf(old(v)@),
        count_of(old(v)@, k) < u32::MAX,
    ensures
        tally_wf(final(v)@),
        count_sum(final(v)@) == count_sum(old(v)@) + 1,
        forall|k2: K|
            #[trigger] count_of(final(v)@, k2) == count_of(old(v)@, k2) + if k2 == k {
                1nat
            } else {
                0nat
            },
{
    let kr = k.rank();
    let mut i: usize = 0;
    let mut found = false;
    while !found && i < v.len()
        invariant
            i <= v@.len(),
            v@ == old(v)@,
            forall|j: int| 0 <= j < i ==> (#[trigger] v@[j]).0.spec_rank() < k.spec_rank(),
            found ==> i < v@.len() && v@[i as int].0.spec_rank() >= k.spec_rank(),
            kr == k.spec_rank(),
        decreases v@.len() - i + if found {
            0int
        } else {
            1int
        },
    {
        let key = v[i].0;
        assert(key == v@[i as int].0);
        if key.rank() >= kr {
            found = true;
        } else {
            i = i + 1;
        }
    }
    let ghost s = v@;
    if found && v[i].0.rank() == kr {
        let key = v[i].0;
        let c = v[i].1;
        proof {
            K::lemma_rank_injective(key, k);
            lemma_count_unique(s, k);
        }
        v.set(i, (key, c + 1));
        proof {
            assert(v@ == s.update(i as int, (s[i as int].0, (c + 1) as u32)));
            lemma_count_update(s, i as int, (c + 1) as u32, k);
            assert forall|k2: K|
                #[trigger] count_of(v@, k2) == count_of(s, k2) + if k2 == k {
                    1nat
                } else {
                    0nat
                } by {
                lemma_count_update(s, i as int, (c + 1) as u32, k2);
            }
        }
    } else {
        v.insert(i, (k, 1));
        proof {
            assert(v@ == s.insert(i as int, (k, 1u32)));
            lemma_count_insert(s, i as int, (k, 1u32), k);
            assert forall|k2: K|
                #[trigger] count_of(v@, k2) == count_of(s, k2) + if k2 == k {
                    1nat
                } else {
                    0nat
                } by {
                lemma_count_insert(s, i as int, (k, 1u32), k2);
            }
            assert forall|a: int, b: int|
                0 <= a < b < v@.len() implies (#[trigger] v@[a]).0.spec_rank() < (
                #[trigger] v@[b]).0.spec_rank() by {
                if a < i && b > i {
                    assert(v@[a] == s[a]);
                    assert(v@[b] == s[b - 1]);
                    if b - 1 > i {
                        assert(s[i as int].0.spec_rank() < s[b - 1].0.spec_rank());
                    }
                } else if a < i && b < i {
                    assert(v@[a] == s[a]);
                    assert(v@[b] == s[b]);
                } else if a > i {
                    assert(v@[a] == s[a - 1]);
                    assert(v@[b] == s[b - 1]);
                } else if a == i && b > i {
                    assert(v@[b] == s[b - 1]);
                    if b - 1 > i {
                        assert(s[i as int].0.spec_rank() < s[b - 1].0.spec_rank());
                    }
                } else {
                    assert(v@[a] == s[a]);
                }
            }
            assert forall|a: int| 0 <= a < v@.len() implies (#[trigger] v@[a]).1 > 0 by {
                if a < i {
                    assert(v@[a] == s[a]);
                } else if a > i {
                    assert(v@[a] == s[a - 1]);
                }
            }
        }
    }
}

/// A copy of a table.
pub fn tally_copy<K: CountKey>(v: &Vec<(K, u32)>) -> (r: Vec<(K, u32)>)
    ensures
        r@ == v@,
{
    let mut out: Vec<(K, u32)> = Vec::new();
    let mut i: usize = 0;
    while i < v.len()
        invariant
            i <= v@.len(),
            out@ == v@.take(i as int),
        decreases v@.len() - i,
    {
        let (k, c) = v[i];
        out.push((k, c));
        assert(out@ =~= v@.take(i + 1));
        i = i + 1;
    }
    assert(v@.take(v@.len() as int) =~= v@);
    out
}

/// Sum of the counts of a table.
pub fn tally_total<K: CountKey>(v: &Vec<(K, u32)>) -> (r: u32)
    requires
        count_sum(v@) <= u32::MAX,
    ensures
        r == count_sum(v@),
{
    let mut t: u32 = 0;
    let mut i: usize = 0;
    assert(v@.take(0) =~= Seq::<(K, u32)>::empty());
    while i < v.len()
        invariant
            i <= v@.len(),
            t == count_sum(v@.take(i as int)),
            count_sum(v@) <= u32::MAX,
        decreases v@.len() - i,
    {
        assert(v@.take(i + 1).drop_last() =~= v@.take(i as int));
        proof {
            lemma_count_prefix_le(v@, i + 1);
        }
        t = t + v[i].1;
        i = i + 1;
    }
    assert(v@.take(v@.len() as int) =~= v@);
    t
}

/// The total of a prefix never exceeds the total.
pub proof fn lemma_count_prefix_le<K>(s: Seq<(K, u32)>, n: int)
    requires
        0 <= n <= s.len(),
    ensures
        count_sum(s.take(n)) <= count_sum(s),
    decreases s.len(),
{
    if n < s.len() {
        assert(s.drop_last().take(n) =~= s.take(n));
        lemma_count_prefix_le(s.drop_last(), n);
    } else {
        assert(s.take(n) =~= s);
    }
}

/// Per-file aggregation of findings.
#[derive(Debug, PartialEq)]
pub struct FileReport {
    /// Source file these findings originated from.
    pub file_path: FilePath,
    /// Per-test findings inside this file, in source order.
    pub findings: Vec<Finding>,
}

impl Clone for FileReport {
    fn clone(&self) -> (r: Self)
        ensures
            r.file_path == self.file_path,
            r.findings@.len() == self.findings@.len(),
    {
        let findings = self.findings.clone();
        FileReport { file_path: self.file_path.clone(), findings }
    }
}

impl FileReport {
    /// Construct a per-file aggregation; every finding must belong to
    /// `file_path`.
    pub fn new(file_path: FilePath, findings: Vec<Finding>) -> (r: Self)
        requires
            forall|i: int| 0 <= i < findings@.len() ==> (#[trigger] findings@[i]).test.file_path@ == file_path@,
        ensures
            r == (FileReport { file_path, findings }),
    {
        FileReport { file_path, findings }
    }
}

/// Counts of recorded smells by category and by severity. Each table
/// lists only the keys recorded at least once, in declaration order.
#[derive(Debug, PartialEq)]
pub struct Distribution {
    /// Per-smell-category counter.
    pub by_smell: Vec<(SmellCategory, u32)>,
    /// Per-severity counter.
    pub by_severity: Vec<(Severity, u32)>,
}

impl Clone for Distribution {
    fn clone(&self) -> (r: Self)
        ensures
            r.by_smell@ == self.by_smell@,
            r.by_severity@ == self.by_severity@,
    {
        Distribution { by_smell: tally_copy(&self.by_smell), by_severity: tally_copy(&self.by_severity) }
    }
}

impl Distribution {
    /// Both tables are well formed and each smell counted once on
    /// each axis.
    pub open spec fn wf(self) -> bool {
        &&& tally_wf(self.by_smell@)
        &&& tally_wf(self.by_severity@)
        &&& count_sum(self.by_smell@) == count_sum(self.by_severity@)
    }

    /// Number of smells recorded.
    pub open spec fn spec_total(self) -> nat {
        count_sum(self.by_smell@)
    }

    /// An empty distribution.
    pub fn new() -> (r: Self)
        ensures
            r.wf(),
            r.spec_total() == 0,
            forall|c: SmellCategory| #[trigger] count_of(r.by_smell@, c) == 0,
            forall|s: Severity| #[trigger] count_of(r.by_severity@, s) == 0,
    {
        Distribution { by_smell: Vec::new(), by_severity: Vec::new() }
    }

    /// Count one smell of `category` and `severity` on both axes.
    pub fn record(&mut self, category: SmellCategory, severity: Severity)
        requires
            old(self).wf(),
            count_of(old(self).by_smell@, category) < u32::MAX,
            count_of(old(self).by_severity@, severity) < u32::MAX,
        ensures
            final(self).wf(),
            final(self).spec_total() == old(self).spec_total() + 1,
            forall|c: SmellCategory|
                #[trigger] count_of(final(self).by_smell@, c) == count_of(old(self).by_smell@, c)
                    + if c == category {
                    1nat
                } else {
                    0nat
                },
            forall|s: Severity|
                #[trigger] count_of(final(self).by_severity@, s) == count_of(
                    old(self).by_severity@,
                    s,
                ) + if s == severity {
                    1nat
                } else {
                    0nat
                },
    {
        tally_record(&mut self.by_smell, category);
        tally_record(&mut self.by_severity, severity);
    }

    /// Number of recorded smells; in a well-formed distribution equal
    /// to the sum across either axis.
    pub fn total(&self) -> (r: u32)
        requires
            self.spec_total() <= u32::MAX,
        ensures
            r == self.spec_total(),
            self.wf() ==> r == count_sum(self.by_severity@),
    {
        tally_total(&self.by_smell)
    }

    /// Number of smells recorded for `category`.
    pub fn smell_count(&self, category: SmellCategory) -> (r: u32)
        requires
            tally_wf(self.by_smell@),
        ensures
            r == count_of(self.by_smell@, category),
    {
        tally_get(&self.by_smell, category)
    }

    /// Number of smells recorded with `severity`.
    pub fn severity_count(&self, severity: Severity) -> (r: u32)
        requires
            tally_wf(self.by_severity@),
        ensures
            r == count_of(self.by_severity@, severity),
    {
        tally_get(&self.by_severity, severity)
    }
}

/// In a well-formed table, the count of a key present at `i` is the
/// entry there, and absent keys count zero.
pub proof fn lemma_count_unique<K: CountKey>(s: Seq<(K, u32)>, k: K)
    requires
        tally_wf(s),
    ensures
        forall|i: int| 0 <= i < s.len() && (#[trigger] s[i]).0 == k ==> count_of(s, k) == s[i].1,
        (forall|i: int| 0 <= i < s.len() ==> (#[trigger] s[i]).0 != k) ==> count_of(s, k) == 0,
    decreases s.len(),
{
    if s.len() > 0 {
        let init = s.drop_last();
        assert(tally_wf(init)) by {
            assert forall|i: int, j: int| 0 <= i < j < init.len() implies (#[trigger] init[i]).0.spec_rank()
                < (#[trigger] init[j]).0.spec_rank() by {
                assert(init[i] == s[i] && init[j] == s[j]);
            }
            assert forall|i: int| 0 <= i < init.len() implies (#[trigger] init[i]).1 > 0 by {
                assert(init[i] == s[i]);
            }
        }
        lemma_count_unique(init, k);
        assert forall|i: int| 0 <= i < s.len() && (#[trigger] s[i]).0 == k implies count_of(s, k)
            == s[i].1 by {
            if i < s.len() - 1 {
                assert(init[i] == s[i]);
                assert(s[i].0.spec_rank() < s[s.len() - 1].0.spec_rank());
            } else {
                assert forall|j: int| 0 <= j < init.len() implies (#[trigger] init[j]).0 != k by {
                    assert(init[j] == s[j]);
                    assert(s[j].0.spec_rank() < s[s.len() - 1].0.spec_rank());
                }
            }
        }
        if forall|i: int| 0 <= i < s.len() ==> (#[trigger] s[i]).0 != k {
            assert forall|j: int| 0 <= j < init.len() implies (#[trigger] init[j]).0 != k by {
                assert(init[j] == s[j]);
            }
            assert(s[s.len() - 1].0 != k);
        }
    }
}

/// Look up the count of `k`.
pub fn tally_get<K: CountKey>(v: &Vec<(K, u32)>, k: K) -> (r: u32)
    requires
        tally_wf(v@),
    ensures
        r == count_of(v@, k),
{
    proof {
        lemma_count_unique(v@, k);
    }
    let kr = k.rank();
    let mut i: usize = 0;
    while i < v.len()
        invariant
            i <= v@.len(),
            forall|j: int| 0 <= j < i ==> (#[trigger] v@[j]).0 != k,
            kr == k.spec_rank(),
            tally_wf(v@),
        decreases v@.len() - i,
    {
        let key = v[i].0;
        assert(key == v@[i as int].0);
        if key.rank() == kr {
            proof {
                K::lemma_rank_injective(v@[i as int].0, k);
                lemma_count_unique(v@, k);
            }
            return v[i].1;
        }
        i = i + 1;
    }
    0
}

/// Every finding of the report's files, in file then source order.
pub open spec fn report_findings(files: Seq<FileReport>) -> Seq<Finding>
    decreases files.len(),
{
    if files.len() == 0 {
        Seq::empty()
    } else {
        report_findings(files.drop_last()) + files.last().findings@
    }
}

/// Where a smell is reported: its own span, else the whole test.
pub open spec fn smell_location(f: Finding, sm: Smell) -> Span {
    match sm.span {
        Some(s) => s,
        None => f.test.span,
    }
}

/// Every (finding, smell) pair of `fs`, in order.
pub open spec fn smell_pairs(fs: Seq<Finding>) -> Seq<(Finding, Smell)>
    decreases fs.len(),
{
    if fs.len() == 0 {
        Seq::empty()
    } else {
        smell_pairs(fs.drop_last()) + fs.last().smells@.map_values(|sm: Smell| (fs.last(), sm))
    }
}

/// The pairs of a concatenation are the concatenated pairs.
pub proof fn lemma_smell_pairs_append(a: Seq<Finding>, b: Seq<Finding>)
    ensures
        smell_pairs(a + b) == smell_pairs(a) + smell_pairs(b),
    decreases b.len(),
{
    if b.len() == 0 {
        assert(a + b =~= a);
        assert(smell_pairs(b) =~= Seq::<(Finding, Smell)>::empty());
        assert(smell_pairs(a) + smell_pairs(b) =~= smell_pairs(a));
    } else {
        assert((a + b).drop_last() =~= a + b.drop_last());
        assert((a + b).last() == b.last());
        lemma_smell_pairs_append(a, b.drop_last());
        let tail = b.last().smells@.map_values(|sm: Smell| (b.last(), sm));
        assert(smell_pairs(a) + smell_pairs(b.drop_last()) + tail =~= smell_pairs(a) + (smell_pairs(
            b.drop_last(),
        ) + tail));
    }
}

/// The smell total of a concatenation is the sum of the totals.
pub proof fn lemma_smell_total_append(a: Seq<Finding>, b: Seq<Finding>)
    ensures
        smell_total(a + b) == smell_total(a) + smell_total(b),
    decreases b.len(),
{
    if b.len() == 0 {
        assert(a + b =~= a);
    } else {
        assert((a + b).drop_last() =~= a + b.drop_last());
        lemma_smell_total_append(a, b.drop_last());
    }
}

/// Number of smells of `smells` in `category`.
pub open spec fn category_count(smells: Seq<Smell>, category: SmellCategory) -> nat
    decreases smells.len(),
{
    if smells.len() == 0 {
        0
    } else {
        category_count(smells.drop_last(), category) + if smells.last().category == category {
            1nat
        } else {
            0nat
        }
    }
}

/// Number of smells of `smells` with `severity`.
pub open spec fn severity_count(smells: Seq<Smell>, severity: Severity) -> nat
    decreases smells.len(),
{
    if smells.len() == 0 {
        0
    } else {
        severity_count(smells.drop_last(), severity) + if smells.last().severity == severity {
            1nat
        } else {
            0nat
        }
    }
}

/// Number of smells across `fs` in `category`.
pub open spec fn smell_occurrences(fs: Seq<Finding>, category: SmellCategory) -> nat
    decreases fs.len(),
{
    if fs.len() == 0 {
        0
    } else {
        smell_occurrences(fs.drop_last(), category) + category_count(fs.last().smells@, category)
    }
}

/// Number of smells across `fs` with `severity`.
pub open spec fn severity_occurrences(fs: Seq<Finding>, severity: Severity) -> nat
    decreases fs.len(),
{
    if fs.len() == 0 {
        0
    } else {
        severity_occurrences(fs.drop_last(), severity) + severity_count(fs.last().smells@, severity)
    }
}

/// Number of smells across `fs`.
pub open spec fn smell_total(fs: Seq<Finding>) -> nat
    decreases fs.len(),
{
    if fs.len() == 0 {
        0
    } else {
        smell_total(fs.drop_last()) + fs.last().smells@.len()
    }
}

/// Number of findings of `fs` flagged as exceeding the threshold.
pub open spec fn exceeding_count(fs: Seq<Finding>) -> nat
    decreases fs.len(),
{
    if fs.len() == 0 {
        0
    } else {
        exceeding_count(fs.drop_last()) + if fs.last().exceeds_threshold {
            1nat
        } else {
            0nat
        }
    }
}

/// Sum of the scores of `fs`.
pub open spec fn score_sum(fs: Seq<Finding>) -> nat
    decreases fs.len(),
{
    if fs.len() == 0 {
        0
    } else {
        score_sum(fs.drop_last()) + fs.last().scrap_score as nat
    }
}

/// Highest score of `fs`, zero when there is none.
pub open spec fn max_score(fs: Seq<Finding>) -> nat
    decreases fs.len(),
{
    if fs.len() == 0 {
        0
    } else {
        let m = max_score(fs.drop_last());
        if fs.last().scrap_score > m {
            fs.last().scrap_score as nat
        } else {
            m
        }
    }
}

/// The distinct file paths of `fs`, in order of first occurrence.
pub open spec fn distinct_paths(fs: Seq<Finding>) -> Seq<Seq<char>>
    decreases fs.len(),
{
    if fs.len() == 0 {
        Seq::empty()
    } else {
        let seen = distinct_paths(fs.drop_last());
        let p = fs.last().test.file_path@;
        if seen.contains(p) {
            seen
        } else {
            seen.push(p)
        }
    }
}

/// A finding whose score is the sum of its smells' penalties, as
/// [`Finding::new`] builds it.
pub open spec fn score_consistent(f: Finding) -> bool {
    f.scrap_score == total_penalty(f.smells@)
}

/// The score sum is bounded by the smell count times the largest
/// penalty.
pub proof fn lemma_score_sum_bound(fs: Seq<Finding>)
    requires
        forall|i: int| 0 <= i < fs.len() ==> score_consistent(#[trigger] fs[i]),
    ensures
        score_sum(fs) <= smell_total(fs) * (u32::MAX as nat),
    decreases fs.len(),
{
    if fs.len() > 0 {
        let init = fs.drop_last();
        assert forall|i: int| 0 <= i < init.len() implies score_consistent(#[trigger] init[i]) by {
            assert(init[i] == fs[i]);
        }
        lemma_score_sum_bound(init);
        assert(score_consistent(fs[fs.len() - 1]));
        lemma_total_penalty_bound(fs.last().smells@);
        let a = smell_total(init) as int;
        let b = fs.last().smells@.len() as int;
        let m = u32::MAX as int;
        assert(a * m + b * m == (a + b) * m) by (nonlinear_arith);
    }
}

/// The score sum of two runs of findings is the sum of their sums.
pub proof fn lemma_score_sum_append(a: Seq<Finding>, b: Seq<Finding>)
    ensures
        score_sum(a + b) == score_sum(a) + score_sum(b),
    decreases b.len(),
{
    if b.len() == 0 {
        assert(a + b =~= a);
    } else {
        assert((a + b).drop_last() =~= a + b.drop_last());
        lemma_score_sum_append(a, b.drop_last());
    }
}

/// The scores of a prefix never sum past those of all the findings.
pub proof fn lemma_score_sum_prefix(fs: Seq<Finding>, n: int)
    requires
        0 <= n <= fs.len(),
    ensures
        score_sum(fs.take(n)) <= score_sum(fs),
{
    lemma_score_sum_append(fs.take(n), fs.skip(n));
    assert(fs.take(n) + fs.skip(n) =~= fs);
}

/// Top-level run summary.
#[derive(Debug, PartialEq)]
pub struct Summary {
    /// Total tests inspected.
    pub total_tests: u32,
    /// Total distinct source files among the inspected tests.
    pub total_files: u32,
    /// Number of tests whose score exceeded the active threshold.
    pub exceeding_threshold: u32,
    /// Distribution counters.
    pub distribution: Distribution,
    /// Highest score observed (zero when none).
    pub max_scrap_score: u128,
    /// Sum of all scores; the mean is this over `total_tests`.
    pub scrap_score_sum: u128,
}

impl Default for Summary {
    fn default() -> (r: Self)
        ensures
            r.total_tests == 0,
            r.total_files == 0,
            r.exceeding_threshold == 0,
            r.distribution.wf(),
            r.distribution.by_smell@.len() == 0,
            r.distribution.by_severity@.len() == 0,
            r.max_scrap_score == 0,
            r.scrap_score_sum == 0,
    {
        Summary {
            total_tests: 0,
            total_files: 0,
            exceeding_threshold: 0,
            distribution: Distribution::new(),
            max_scrap_score: 0,
            scrap_score_sum: 0,
        }
    }
}

impl Clone for Summary {
    fn clone(&self) -> (r: Self)
        ensures
            r.total_tests == self.total_tests,
            r.total_files == self.total_files,
            r.exceeding_threshold == self.exceeding_threshold,
            r.distribution.by_smell@ == self.distribution.by_smell@,
            r.distribution.by_severity@ == self.distribution.by_severity@,
            r.max_scrap_score == self.max_scrap_score,
            r.scrap_score_sum == self.scrap_score_sum,
    {
        Summary {
            total_tests: self.total_tests,
            total_files: self.total_files,
            exceeding_threshold: self.exceeding_threshold,
            distribution: self.distribution.clone(),
            max_scrap_score: self.max_scrap_score,
            scrap_score_sum: self.scrap_score_sum,
        }
    }
}

/// The findings behind a sequence of references.
pub open spec fn deref_all(fs: Seq<&Finding>) -> Seq<Finding> {
    fs.map_values(|f: &Finding| *f)
}

impl Summary {
    /// What [`Summary::from_findings`] computes for `fs`.
    pub open spec fn summarizes(self, fs: Seq<Finding>) -> bool {
        &&& self.total_tests == fs.len()
        &&& self.total_files == distinct_paths(fs).len()
        &&& self.exceeding_threshold == exceeding_count(fs)
        &&& self.max_scrap_score == max_score(fs)
        &&& self.scrap_score_sum == score_sum(fs)
        &&& self.distribution.wf()
        &&& self.distribution.spec_total() == smell_total(fs)
        &&& forall|c: SmellCategory| #[trigger] count_of(self.distribution.by_smell@, c) == smell_occurrences(fs, c)
        &&& forall|s: Severity| #[trigger] count_of(self.distribution.by_severity@, s) == severity_occurrences(fs, s)
    }

    /// Aggregate findings: test and distinct-file counts, threshold
    /// exceedances, highest and summed score, and the distribution of
    /// every smell by category and severity.
    pub fn from_findings(findings: &Vec<&Finding>) -> (r: Self)
        requires
            findings@.len() <= u32::MAX,
            smell_total(deref_all(findings@)) <= u32::MAX,
            score_sum(deref_all(findings@)) <= u128::MAX,
        ensures
            r.summarizes(deref_all(findings@)),
    {
        let ghost fs = deref_all(findings@);
        let mut s = Summary::default();
        let mut seen: Vec<String> = Vec::new();
        let mut i: usize = 0;
        proof {
            assert(fs.take(0) =~= Seq::<Finding>::empty());
            assert(seen@.map_values(|p: String| p@) =~= Seq::<Seq<char>>::empty());
        }
        while i < findings.len()
            invariant
                fs == deref_all(findings@),
                i <= fs.len(),
                fs.len() <= u32::MAX,
                smell_total(fs) <= u32::MAX,
                score_sum(fs) <= u128::MAX,
                s.total_tests == i,
                seen@.map_values(|p: String| p@) == distinct_paths(fs.take(i as int)),
                seen@.len() <= i,
                s.exceeding_threshold == exceeding_count(fs.take(i as int)),
                s.exceeding_threshold <= i,
                s.max_scrap_score == max_score(fs.take(i as int)),
                s.scrap_score_sum == score_sum(fs.take(i as int)),
                s.distribution.wf(),
                s.distribution.spec_total() == smell_total(fs.take(i as int)),
                forall|c: SmellCategory| #[trigger] count_of(s.distribution.by_smell@, c) == smell_occurrences(fs.take(i as int), c),
                forall|v: Severity| #[trigger] count_of(s.distribution.by_severity@, v) == severity_occurrences(fs.take(i as int), v),
            decreases fs.len() - i,
        {
            let f: &Finding = findings[i];
            let ghost pre = fs.take(i as int);
            let ghost next = fs.take(i + 1);
            proof {
                assert(next.drop_last() =~= pre);
                assert(fs[i as int] == *f);
                assert(next.last() == *f);
                lemma_smell_total_prefix(fs, i + 1);
                lemma_score_sum_prefix(fs, i + 1);
            }
            s.total_tests = s.total_tests + 1;
            if f.exceeds_threshold {
                s.exceeding_threshold = s.exceeding_threshold + 1;
            }
            if f.scrap_score > s.max_scrap_score {
                s.max_scrap_score = f.scrap_score;
            }
            s.scrap_score_sum = s.scrap_score_sum + f.scrap_score;
            // distinct file paths
            let mut known = false;
            let mut k: usize = 0;
            while k < seen.len()
                invariant
                    k <= seen@.len(),
                    known == (exists|m: int| 0 <= m < k && (#[trigger] seen@[m])@ == f.test.file_path@),
                decreases seen@.len() - k,
            {
                if seen[k] == f.test.file_path.to_string() {
                    known = true;
                }
                k = k + 1;
            }
            proof {
                let sv = seen@.map_values(|p: String| p@);
                if known {
                    let m = choose|m: int| 0 <= m < seen@.len() && (#[trigger] seen@[m])@ == f.test.file_path@;
                    assert(sv[m] == f.test.file_path@);
                    assert(sv.contains(f.test.file_path@));
                } else {
                    assert(!sv.contains(f.test.file_path@)) by {
                        if sv.contains(f.test.file_path@) {
                            let m = choose|m: int| 0 <= m < sv.len() && sv[m] == f.test.file_path@;
                            assert(seen@[m]@ == f.test.file_path@);
                        }
                    }
                }
            }
            if !known {
                seen.push(f.test.file_path.to_string());
                proof {
                    assert(seen@.map_values(|p: String| p@) =~= distinct_paths(pre).push(f.test.file_path@));
                }
            }
            let mut j: usize = 0;
            proof {
                assert(f.smells@.take(0) =~= Seq::<Smell>::empty());
            }
            while j < f.smells.len()
                invariant
                    j <= f.smells@.len(),
                    s.total_tests == i + 1,
                    s.exceeding_threshold == exceeding_count(next),
                    s.exceeding_threshold <= i + 1,
                    s.max_scrap_score == max_score(next),
                    s.scrap_score_sum == score_sum(next),
                    s.distribution.wf(),
                    smell_total(next) <= u32::MAX,
                    smell_total(next) == smell_total(pre) + f.smells@.len(),
                    s.distribution.spec_total() == smell_total(pre) + j,
                    forall|c: SmellCategory| #[trigger] count_of(s.distribution.by_smell@, c) == smell_occurrences(pre, c) + category_count(f.smells@.take(j as int), c),
                    forall|v: Severity| #[trigger] count_of(s.distribution.by_severity@, v) == severity_occurrences(pre, v) + severity_count(f.smells@.take(j as int), v),
                decreases f.smells@.len() - j,
            {
                let sm = &f.smells[j];
                proof {
                    assert(f.smells@.take(j + 1).drop_last() =~= f.smells@.take(j as int));
                    assert(f.smells@.take(j + 1).last() == *sm);
                    lemma_count_le_total(s.distribution.by_smell@, sm.category);
                    lemma_count_le_total(s.distribution.by_severity@, sm.severity);
                }
                s.distribution.record(sm.category, sm.severity);
                j = j + 1;
            }
            proof {
                assert(f.smells@.take(f.smells@.len() as int) =~= f.smells@);
            }
            i = i + 1;
        }
        proof {
            assert(fs.take(fs.len() as int) =~= fs);
        }
        s.total_files = seen.len() as u32;
        s
    }
}

/// The smell total of a prefix grows by the next finding's smells and
/// stays within the whole.
pub proof fn lemma_smell_total_prefix(fs: Seq<Finding>, n: int)
    requires
        0 < n <= fs.len(),
    ensures
        smell_total(fs.take(n)) == smell_total(fs.take(n - 1)) + fs[n - 1].smells@.len(),
        smell_total(fs.take(n)) <= smell_total(fs),
    decreases fs.len(),
{
    assert(fs.take(n).drop_last() =~= fs.take(n - 1));
    if n < fs.len() {
        assert(fs.drop_last().take(n) =~= fs.take(n));
        assert(fs.drop_last().take(n - 1) =~= fs.take(n - 1));
        lemma_smell_total_prefix(fs.drop_last(), n);
    } else {
        assert(fs.take(n) =~= fs);
    }
}

/// Top-level domain report.
#[derive(Debug, PartialEq)]
pub struct Report {
    /// Per-file aggregations, in source order.
    pub files: Vec<FileReport>,
    /// Run-level summary across all files.
    pub summary: Summary,
    /// Gate verdict, set by the analysis pipeline.
    pub passed: bool,
}

impl Default for Report {
    fn default() -> (r: Self)
        ensures
            r.files@.len() == 0,
            r.summary.summarizes(Seq::empty()),
            !r.passed,
    {
        let summary = Summary::default();
        proof {
            lemma_count_empty(SmellCategory::ZeroAssertion);
            assert(forall|c: SmellCategory| #[trigger] count_of(summary.distribution.by_smell@, c) == 0);
            assert(forall|v: Severity| #[trigger] count_of(summary.distribution.by_severity@, v) == 0);
        }
        Report { files: Vec::new(), summary, passed: false }
    }
}

/// Flatten the findings of `files` into references, in file then
/// source order.
pub fn finding_refs(files: &Vec<FileReport>) -> (r: Vec<&Finding>)
    ensures
        deref_all(r@) == report_findings(files@),
{
    let mut refs: Vec<&Finding> = Vec::new();
    let mut k: usize = 0;
    proof {
        assert(files@.take(0) =~= Seq::<FileReport>::empty());
        assert(deref_all(refs@) =~= Seq::<Finding>::empty());
    }
    while k < files.len()
        invariant
            k <= files@.len(),
            deref_all(refs@) == report_findings(files@.take(k as int)),
        decreases files@.len() - k,
    {
        let fr = &files[k];
        let ghost base = report_findings(files@.take(k as int));
        let mut t: usize = 0;
        proof {
            assert(base + fr.findings@.take(0) =~= base);
        }
        while t < fr.findings.len()
            invariant
                t <= fr.findings@.len(),
                deref_all(refs@) == base + fr.findings@.take(t as int),
            decreases fr.findings@.len() - t,
        {
            let ghost before = refs@;
            refs.push(&fr.findings[t]);
            proof {
                assert(deref_all(refs@) =~= deref_all(before).push(fr.findings@[t as int]));
                assert(base + fr.findings@.take(t + 1) =~= (base + fr.findings@.take(t as int)).push(
                    fr.findings@[t as int],
                ));
            }
            t = t + 1;
        }
        proof {
            assert(fr.findings@.take(fr.findings@.len() as int) =~= fr.findings@);
            assert(files@.take(k + 1).drop_last() =~= files@.take(k as int));
            assert(files@.take(k + 1).last() == *fr);
        }
        k = k + 1;
    }
    proof {
        assert(files@.take(files@.len() as int) =~= files@);
    }
    refs
}

} // verus!
