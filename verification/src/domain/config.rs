//! Analysis configuration: the runtime walker config and the project
//! config file schema, plus the canonical per-path detector resolver.

use vstd::prelude::*;

use crate::domain::opt_outs::OptOut;
use crate::domain::smell::SmellCategory;
use crate::domain::types::SourceRoot;
use crate::glob::{
    backslash_free, glob_is_match, spec_glob_compiles, spec_glob_matches, spec_glob_set_builds, MAX_GLOB_CHARS,
};

verus! {

/// Caller-supplied configuration for one discovery walk.
#[derive(Debug, Clone, PartialEq, Eq)]
pub struct AnalysisConfig {
    /// Workspace root the walker walks.
    pub src: SourceRoot,
    /// Raw user exclude globs.
    pub exclude: Vec<String>,
    /// Bare extensions the walker keeps; empty keeps every file.
    pub extensions: Vec<String>,
    /// Honour `.gitignore`, `.ignore` and `.git/info/exclude`.
    pub respect_gitignore: bool,
}

impl AnalysisConfig {
    /// Canonical constructor; patterns are validated by the walker.
    pub fn new(
        src: SourceRoot,
        exclude: Vec<String>,
        extensions: Vec<String>,
        respect_gitignore: bool,
    ) -> (r: Self)
        ensures
            r == (AnalysisConfig { src, exclude, extensions, respect_gitignore }),
    {
        AnalysisConfig { src, exclude, extensions, respect_gitignore }
    }
}

/// Per-smell detector table: at most one entry per category, in
/// category order.
pub type DetectorTable = Vec<(SmellCategory, DetectorConfig)>;

/// Project-level configuration parsed from the adapter's config file.
#[derive(Debug, Clone, PartialEq, Eq)]
pub struct FileConfig {
    /// Workspace root the analyzer walks.
    pub src: Option<String>,
    /// User exclude globs.
    pub exclude: Vec<String>,
    /// Extensions the walker keeps; `None` defers to the adapter.
    pub extensions: Option<Vec<String>>,
    /// Which per-test suppressions the project honours.
    pub opt_outs: OptOutPolicy,
    /// Per-smell detector tunables.
    pub detectors: DetectorTable,
    /// Glob-matched overrides, in document order.
    pub overrides: Vec<Override>,
}

impl Default for FileConfig {
    fn default() -> (r: Self)
        ensures
            r.src is None,
            r.exclude@.len() == 0,
            r.extensions is None,
            r.opt_outs.honor is None,
            r.detectors@.len() == 0,
            r.overrides@.len() == 0,
    {
        FileConfig {
            src: None,
            exclude: Vec::new(),
            extensions: None,
            opt_outs: OptOutPolicy { honor: None },
            detectors: Vec::new(),
            overrides: Vec::new(),
        }
    }
}

/// Project policy on which per-test suppressions are honoured: `None`
/// honours all, `Some(list)` only the listed ones.
#[derive(Debug, Clone, PartialEq, Eq, Default)]
pub struct OptOutPolicy {
    /// Honour list.
    pub honor: Option<Vec<OptOut>>,
}

impl OptOutPolicy {
    /// `true` when no explicit honour list is present.
    pub fn is_empty(&self) -> (r: bool)
        ensures
            r == (self.honor is None),
    {
        self.honor.is_none()
    }
}

/// Per-smell detector configuration; `None` fields defer to defaults.
#[derive(Debug, Clone, Copy, Default, PartialEq, Eq)]
pub struct DetectorConfig {
    /// `Some(false)` disables the detector.
    pub enabled: Option<bool>,
    /// Penalty when the smell fires.
    pub penalty: Option<u32>,
    /// Body-line threshold (large-example only).
    pub line_threshold: Option<u32>,
}

impl DetectorConfig {
    /// The configuration with every field deferred to its default.
    pub open spec fn unset() -> DetectorConfig {
        DetectorConfig { enabled: None, penalty: None, line_threshold: None }
    }
}

/// Glob-matched override block.
#[derive(Debug, Clone, PartialEq, Eq)]
pub struct Override {
    /// Path globs; the override applies when any of them matches.
    pub match_globs: Vec<String>,
    /// Per-smell overrides for matching paths.
    pub detectors: DetectorTable,
}

/// The first entry of `table` keyed by `category`.
pub open spec fn table_lookup(table: Seq<(SmellCategory, DetectorConfig)>, category: SmellCategory) -> Option<
    DetectorConfig,
>
    decreases table.len(),
{
    if table.len() == 0 {
        None
    } else if table[0].0 == category {
        Some(table[0].1)
    } else {
        table_lookup(table.skip(1), category)
    }
}

/// The configuration for `category` from the last override that applies
/// (per `applies`) and mentions the category.
pub open spec fn override_choice(
    overrides: Seq<Override>,
    applies: Seq<bool>,
    category: SmellCategory,
) -> Option<DetectorConfig>
    decreases overrides.len(),
{
    if overrides.len() == 0 {
        None
    } else {
        let last = overrides.len() - 1;
        if applies[last] && table_lookup(overrides[last].detectors@, category) is Some {
            table_lookup(overrides[last].detectors@, category)
        } else {
            override_choice(overrides.drop_last(), applies.drop_last(), category)
        }
    }
}

/// Last-match-wins resolution: the last applying override that mentions
/// the category, else the top-level table entry, else all defaults.
pub open spec fn resolved_config(cfg: FileConfig, applies: Seq<bool>, category: SmellCategory) -> DetectorConfig {
    match override_choice(cfg.overrides@, applies, category) {
        Some(d) => d,
        None => match table_lookup(cfg.detectors@, category) {
            Some(d) => d,
            None => DetectorConfig::unset(),
        },
    }
}

/// Override `i` of `overrides` applies (per `applies`) and its table
/// mentions `category`.
pub open spec fn mentions_applying(
    overrides: Seq<Override>,
    applies: Seq<bool>,
    i: int,
    category: SmellCategory,
) -> bool {
    0 <= i < overrides.len() && applies[i] && table_lookup(overrides[i].detectors@, category) is Some
}

/// The choice among `overrides` is the table entry of the last applying
/// override that mentions the category, and there is none when no
/// applying override mentions it.
proof fn lemma_choice_is_last_mentioning(overrides: Seq<Override>, applies: Seq<bool>, category: SmellCategory)
    requires
        applies.len() == overrides.len(),
    ensures
        forall|i: int|
            mentions_applying(overrides, applies, i, category) && (forall|j: int|
                i < j < overrides.len() ==> !mentions_applying(overrides, applies, j, category)) ==> override_choice(
                overrides,
                applies,
                category,
            ) == table_lookup(overrides[i].detectors@, category),
        (forall|j: int| 0 <= j < overrides.len() ==> !mentions_applying(overrides, applies, j, category))
            ==> override_choice(overrides, applies, category) is None,
    decreases overrides.len(),
{
    if overrides.len() > 0 {
        let os = overrides.drop_last();
        let aps = applies.drop_last();
        lemma_choice_is_last_mentioning(os, aps, category);
        let last = overrides.len() - 1;
        assert forall|j: int| 0 <= j < os.len() implies mentions_applying(os, aps, j, category)
            == mentions_applying(overrides, applies, j, category) by {
            assert(os[j] == overrides[j]);
            assert(aps[j] == applies[j]);
        }
        assert forall|i: int|
            mentions_applying(overrides, applies, i, category) && (forall|j: int|
                i < j < overrides.len() ==> !mentions_applying(overrides, applies, j, category)) implies override_choice(
            overrides,
            applies,
            category,
        ) == table_lookup(overrides[i].detectors@, category) by {
            if i < last {
                assert(!mentions_applying(overrides, applies, last, category));
                assert(mentions_applying(os, aps, i, category));
                assert forall|j: int| i < j < os.len() implies !mentions_applying(os, aps, j, category) by {
                    assert(!mentions_applying(overrides, applies, j, category));
                }
                assert(os[i] == overrides[i]);
            }
        }
        if forall|j: int| 0 <= j < overrides.len() ==> !mentions_applying(overrides, applies, j, category) {
            assert(!mentions_applying(overrides, applies, last, category));
            assert forall|j: int| 0 <= j < os.len() implies !mentions_applying(os, aps, j, category) by {
                assert(!mentions_applying(overrides, applies, j, category));
            }
        }
    }
}

/// Law (last match wins per detector key): when override `i` applies and
/// mentions `category`, and no later applying override mentions it, the
/// resolved configuration is override `i`'s entry. An applying override
/// that does not mention the category never hides an earlier one that
/// does.
pub proof fn law_last_mentioning_override_wins(cfg: FileConfig, applies: Seq<bool>, category: SmellCategory, i: int)
    requires
        applies.len() == cfg.overrides@.len(),
        mentions_applying(cfg.overrides@, applies, i, category),
        forall|j: int| i < j < cfg.overrides@.len() ==> !mentions_applying(cfg.overrides@, applies, j, category),
    ensures
        table_lookup(cfg.overrides@[i].detectors@, category) == Some(resolved_config(cfg, applies, category)),
{
    lemma_choice_is_last_mentioning(cfg.overrides@, applies, category);
}

/// Law: when no applying override mentions `category`, the top-level
/// table entry decides, and without one every setting is the default.
pub proof fn law_table_decides_without_overrides(cfg: FileConfig, applies: Seq<bool>, category: SmellCategory)
    requires
        applies.len() == cfg.overrides@.len(),
        forall|j: int| 0 <= j < cfg.overrides@.len() ==> !mentions_applying(cfg.overrides@, applies, j, category),
    ensures
        resolved_config(cfg, applies, category) == (match table_lookup(cfg.detectors@, category) {
            Some(d) => d,
            None => DetectorConfig::unset(),
        }),
{
    lemma_choice_is_last_mentioning(cfg.overrides@, applies, category);
}

/// Look up `category` in `table`.
pub fn lookup_detector(table: &DetectorTable, category: SmellCategory) -> (r: Option<DetectorConfig>)
    ensures
        r == table_lookup(table@, category),
{
    let mut i: usize = 0;
    assert(table@.skip(0) =~= table@);
    while i < table.len()
        invariant
            i <= table@.len(),
            table_lookup(table@, category) == table_lookup(table@.skip(i as int), category),
        decreases table@.len() - i,
    {
        let ghost rest = table@.skip(i as int);
        assert(rest[0] == table@[i as int]);
        assert(rest.skip(1) =~= table@.skip(i + 1));
        let entry = &table[i];
        if same_category(entry.0, category) {
            return Some(entry.1);
        }
        i = i + 1;
    }
    None
}

/// Category equality.
pub fn same_category(a: SmellCategory, b: SmellCategory) -> (r: bool)
    ensures
        r == (a == b),
{
    match (a, b) {
        (SmellCategory::ZeroAssertion, SmellCategory::ZeroAssertion) => true,
        (SmellCategory::TautologicalAssertion, SmellCategory::TautologicalAssertion) => true,
        (SmellCategory::NoOpIo, SmellCategory::NoOpIo) => true,
        (SmellCategory::SurfaceOnlyIo, SmellCategory::SurfaceOnlyIo) => true,
        (SmellCategory::LargeExample, SmellCategory::LargeExample) => true,
        _ => false,
    }
}

/// Resolve the configuration of one detector given which overrides apply
/// to the file at hand (last-match-wins).
pub fn resolve_detector_config(cfg: &FileConfig, category: SmellCategory, applies: &Vec<bool>) -> (r:
    DetectorConfig)
    requires
        applies@.len() == cfg.overrides@.len(),
    ensures
        r == resolved_config(*cfg, applies@, category),
{
    let mut i: usize = cfg.overrides.len();
    assert(cfg.overrides@.take(cfg.overrides@.len() as int) =~= cfg.overrides@);
    assert(applies@.take(applies@.len() as int) =~= applies@);
    while i > 0
        invariant
            i <= cfg.overrides@.len(),
            applies@.len() == cfg.overrides@.len(),
            override_choice(cfg.overrides@, applies@, category) == override_choice(
                cfg.overrides@.take(i as int),
                applies@.take(i as int),
                category,
            ),
        decreases i,
    {
        let ghost ovs = cfg.overrides@.take(i as int);
        let ghost aps = applies@.take(i as int);
        assert(ovs.drop_last() =~= cfg.overrides@.take(i - 1));
        assert(aps.drop_last() =~= applies@.take(i - 1));
        if applies[i - 1] {
            let found = lookup_detector(&cfg.overrides[i - 1].detectors, category);
            if let Some(d) = found {
                return d;
            }
        }
        i = i - 1;
    }
    match lookup_detector(&cfg.detectors, category) {
        Some(d) => d,
        None => DetectorConfig { enabled: None, penalty: None, line_threshold: None },
    }
}

/// Pattern `pattern` hits `path`: it parses, its one-glob set builds,
/// and that set accepts the path.
pub open spec fn glob_hit(pattern: Seq<char>, path: Seq<char>) -> bool {
    spec_glob_compiles(pattern) && spec_glob_set_builds(pattern) && spec_glob_matches(pattern, path)
}

/// Pattern `pattern` may hit `path`: it hits it, or a backslash in
/// either leaves the answer to the platform.
pub open spec fn glob_may_hit(pattern: Seq<char>, path: Seq<char>) -> bool {
    !backslash_free(pattern, path) || glob_hit(pattern, path)
}

/// Some pattern of `o` shorter than [`MAX_GLOB_CHARS`] hits `path`, with
/// neither holding a backslash.
pub open spec fn override_hit(o: Override, path: Seq<char>) -> bool {
    exists|i: int|
        0 <= i < o.match_globs@.len() && o.match_globs@[i]@.len() < MAX_GLOB_CHARS && backslash_free(
            #[trigger] o.match_globs@[i]@,
            path,
        ) && glob_hit(o.match_globs@[i]@, path)
}

/// Some pattern of `o` shorter than [`MAX_GLOB_CHARS`] may hit `path`.
pub open spec fn override_may_hit(o: Override, path: Seq<char>) -> bool {
    exists|i: int|
        0 <= i < o.match_globs@.len() && o.match_globs@[i]@.len() < MAX_GLOB_CHARS && glob_may_hit(
            #[trigger] o.match_globs@[i]@,
            path,
        )
}

/// `b` is the verdict of whether `o` applies to `path`: it applies when
/// one of its patterns hits the path, and only when one may.
pub open spec fn override_verdict(o: Override, path: Seq<char>, b: bool) -> bool {
    &&& override_hit(o, path) ==> b
    &&& b ==> override_may_hit(o, path)
}

/// Every pattern of `o` is shorter than [`MAX_GLOB_CHARS`] and, as the
/// path, free of backslashes: whether `o` applies is then fixed.
pub open spec fn override_portable(o: Override, path: Seq<char>) -> bool {
    forall|i: int|
        0 <= i < o.match_globs@.len() ==> o.match_globs@[i]@.len() < MAX_GLOB_CHARS && backslash_free(
            #[trigger] o.match_globs@[i]@,
            path,
        )
}

/// Whether `applies` gives, for each override of `cfg` in order, a
/// verdict of whether it applies to `path`.
pub open spec fn admissible_matches(cfg: FileConfig, path: Seq<char>, applies: Seq<bool>) -> bool {
    &&& applies.len() == cfg.overrides@.len()
    &&& forall|i: int| 0 <= i < applies.len() ==> override_verdict(cfg.overrides@[i], path, #[trigger] applies[i])
}

/// Every override of `cfg` is portable for `path`.
pub open spec fn portable_overrides(cfg: FileConfig, path: Seq<char>) -> bool {
    forall|i: int| 0 <= i < cfg.overrides@.len() ==> override_portable(#[trigger] cfg.overrides@[i], path)
}

/// Which overrides of `cfg` apply to `path`: those with a pattern that
/// hits it.
pub open spec fn exact_matches(cfg: FileConfig, path: Seq<char>) -> Seq<bool> {
    Seq::new(cfg.overrides@.len(), |i: int| override_hit(cfg.overrides@[i], path))
}

/// Law: where every override is portable for `path`, the verdicts are
/// fixed: an override applies exactly when one of its patterns hits the
/// path.
pub proof fn lemma_portable_matches_are_exact(cfg: FileConfig, path: Seq<char>, applies: Seq<bool>)
    requires
        admissible_matches(cfg, path, applies),
        portable_overrides(cfg, path),
    ensures
        applies == exact_matches(cfg, path),
{
    assert forall|i: int| 0 <= i < applies.len() implies #[trigger] applies[i] == exact_matches(cfg, path)[i] by {
        let o = cfg.overrides@[i];
        assert(override_verdict(o, path, applies[i]));
        assert(override_portable(o, path));
        if applies[i] {
            let j = choose|j: int|
                0 <= j < o.match_globs@.len() && o.match_globs@[j]@.len() < MAX_GLOB_CHARS && glob_may_hit(
                    #[trigger] o.match_globs@[j]@,
                    path,
                );
            assert(backslash_free(o.match_globs@[j]@, path));
            assert(override_hit(o, path));
        }
    }
    assert(applies =~= exact_matches(cfg, path));
}

/// Whether any pattern of `o` parses into a glob whose one-glob set
/// builds and accepts `path`: the override applies when one of its
/// patterns hits the path, and only when one may; without backslashes
/// that is exactly whether some pattern hits the path. A pattern of
/// [`MAX_GLOB_CHARS`] characters or more is not tried.
pub fn override_applies(o: &Override, path: &str) -> (r: bool)
    ensures
        override_verdict(*o, path@, r),
{
    let mut i: usize = 0;
    while i < o.match_globs.len()
        invariant
            i <= o.match_globs@.len(),
            forall|j: int|
                0 <= j < i ==> !(o.match_globs@[j]@.len() < MAX_GLOB_CHARS && backslash_free(
                    #[trigger] o.match_globs@[j]@,
                    path@,
                ) && glob_hit(o.match_globs@[j]@, path@)),
        decreases o.match_globs@.len() - i,
    {
        let pattern = o.match_globs[i].as_str();
        if pattern.unicode_len() < MAX_GLOB_CHARS {
            match glob_is_match(pattern, path) {
                Some(true) => {
                    assert(glob_may_hit(o.match_globs@[i as int]@, path@));
                    return true;
                },
                _ => {},
            }
        }
        i = i + 1;
    }
    false
}

/// Which overrides of `cfg` apply to `path`, in order: one verdict of
/// [`override_applies`] each, which for portable overrides is
/// [`exact_matches`].
pub fn override_matches(cfg: &FileConfig, path: &str) -> (r: Vec<bool>)
    ensures
        admissible_matches(*cfg, path@, r@),
        portable_overrides(*cfg, path@) ==> r@ == exact_matches(*cfg, path@),
{
    let mut out: Vec<bool> = Vec::new();
    let mut i: usize = 0;
    while i < cfg.overrides.len()
        invariant
            i <= cfg.overrides@.len(),
            out@.len() == i,
            forall|j: int| 0 <= j < i ==> override_verdict(cfg.overrides@[j], path@, #[trigger] out@[j]),
        decreases cfg.overrides@.len() - i,
    {
        let b = override_applies(&cfg.overrides[i], path);
        out.push(b);
        i = i + 1;
    }
    proof {
        if portable_overrides(*cfg, path@) {
            lemma_portable_matches_are_exact(*cfg, path@, out@);
        }
    }
    out
}

/// Canonical resolver for the configuration of one detector on one file:
/// the last override whose globs match `path` and that mentions the
/// category wins; otherwise the top-level table; otherwise all defaults.
pub fn resolve_detector_for_path(cfg: &FileConfig, path: &str, category: SmellCategory) -> (r:
    DetectorConfig)
    ensures
        exists|applies: Seq<bool>|
            admissible_matches(*cfg, path@, applies) && r == resolved_config(*cfg, applies, category),
        portable_overrides(*cfg, path@) ==> r == resolved_config(*cfg, exact_matches(*cfg, path@), category),
{
    let applies = override_matches(cfg, path);
    resolve_detector_config(cfg, category, &applies)
}

} // verus!
