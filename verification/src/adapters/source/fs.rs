//! Decisions of the disk walker: validating the exclude patterns,
//! classifying each walked entry, and classifying walk errors. The walk
//! itself, over the filesystem, is performed by the caller, which hands
//! in the plain facts of each entry and error.

use vstd::prelude::*;

use crate::domain::source::{SourceDiagnostic, SourceDiagnosticKind};
use crate::domain::types::FilePath;
use crate::glob::{compile_glob, spec_glob_compiles};
use crate::ports::source::SourceError;
use crate::text::{chars_of, lemma_seq_lt_asymmetric, lemma_seq_lt_transitive, owned, push_str, seq_lt, str_lt};

verus! {

/// Unicode `White_Space`, the characters `str::trim` removes.
pub open spec fn is_unicode_whitespace(c: char) -> bool {
    let u = c as u32;
    ||| 0x09 <= u <= 0x0D
    ||| u == 0x20
    ||| u == 0x85
    ||| u == 0xA0
    ||| u == 0x1680
    ||| 0x2000 <= u <= 0x200A
    ||| u == 0x2028
    ||| u == 0x2029
    ||| u == 0x202F
    ||| u == 0x205F
    ||| u == 0x3000
}

/// `s` is empty once trimmed: every character is whitespace.
pub open spec fn spec_is_blank(s: Seq<char>) -> bool {
    forall|i: int| 0 <= i < s.len() ==> is_unicode_whitespace(#[trigger] s[i])
}

/// Evaluates [`spec_is_blank`].
pub fn is_blank(s: &str) -> (r: bool)
    ensures
        r == spec_is_blank(s@),
{
    let cs = chars_of(s);
    let mut i: usize = 0;
    while i < cs.len()
        invariant
            cs@ == s@,
            i <= cs@.len(),
            forall|j: int| 0 <= j < i ==> is_unicode_whitespace(#[trigger] cs@[j]),
        decreases cs@.len() - i,
    {
        let u = cs[i] as u32;
        let ws = (0x09 <= u && u <= 0x0D) || u == 0x20 || u == 0x85 || u == 0xA0 || u == 0x1680
            || (0x2000 <= u && u <= 0x200A) || u == 0x2028 || u == 0x2029 || u == 0x202F || u
            == 0x205F || u == 0x3000;
        if !ws {
            return false;
        }
        i = i + 1;
    }
    true
}

/// `ok` gives one compile verdict per pattern, agreeing with globset
/// ([`spec_glob_compiles`]) on every pattern without a backslash; how a
/// backslash is read depends on the platform.
pub open spec fn compile_verdicts(patterns: Seq<String>, ok: Seq<bool>) -> bool {
    &&& ok.len() == patterns.len()
    &&& forall|j: int|
        0 <= j < patterns.len() && !patterns[j]@.contains('\\') ==> #[trigger] ok[j] == spec_glob_compiles(
            patterns[j]@,
        )
}

/// The first exclude pattern at or after index `from` that is rejected:
/// blank, or not a glob by its verdict in `ok`.
pub open spec fn first_rejected(patterns: Seq<String>, ok: Seq<bool>, from: int) -> Option<int>
    decreases patterns.len() - from,
{
    if from >= patterns.len() || from < 0 {
        None
    } else if spec_is_blank(patterns[from]@) || !ok[from] {
        Some(from)
    } else {
        first_rejected(patterns, ok, from + 1)
    }
}

/// `e` is the refusal of pattern `k`: empty when it is blank, an invalid
/// glob otherwise.
pub open spec fn refusal_of(patterns: Seq<String>, k: int, e: SourceError) -> bool {
    &&& spec_is_blank(patterns[k]@) ==> (e matches SourceError::EmptyExcludePattern { pattern } && pattern@ == patterns[k]@)
    &&& !spec_is_blank(patterns[k]@) ==> (e matches SourceError::InvalidGlob { pattern, .. } && pattern@ == patterns[k]@)
}

/// The verdicts observed so far, then globset's named verdict for every
/// later pattern.
pub open spec fn completed_verdicts(patterns: Seq<String>, seen: Seq<bool>) -> Seq<bool> {
    seen + Seq::new((patterns.len() - seen.len()) as nat, |j: int| spec_glob_compiles(patterns[seen.len() + j]@))
}

/// Completing consistent observed verdicts keeps them consistent.
proof fn lemma_completed_verdicts(patterns: Seq<String>, seen: Seq<bool>)
    requires
        seen.len() <= patterns.len(),
        forall|j: int|
            0 <= j < seen.len() && !patterns[j]@.contains('\\') ==> #[trigger] seen[j] == spec_glob_compiles(
                patterns[j]@,
            ),
    ensures
        compile_verdicts(patterns, completed_verdicts(patterns, seen)),
        completed_verdicts(patterns, seen).take(seen.len() as int) == seen,
{
    let ok = completed_verdicts(patterns, seen);
    assert(ok.take(seen.len() as int) =~= seen);
    assert forall|j: int| 0 <= j < patterns.len() && !patterns[j]@.contains('\\') implies #[trigger] ok[j]
        == spec_glob_compiles(patterns[j]@) by {
        if j < seen.len() {
            assert(ok[j] == seen[j]);
        }
    }
}

/// Patterns that pass do not change where the first refusal is.
proof fn lemma_first_rejected_passes(patterns: Seq<String>, ok: Seq<bool>, from: int, to: int)
    requires
        0 <= from <= to <= patterns.len(),
        forall|j: int| from <= j < to ==> !spec_is_blank(#[trigger] patterns[j]@) && ok[j],
    ensures
        first_rejected(patterns, ok, from) == first_rejected(patterns, ok, to),
    decreases to - from,
{
    if from < to {
        assert(!spec_is_blank(patterns[from]@) && ok[from]);
        lemma_first_rejected_passes(patterns, ok, from + 1, to);
    }
}

/// Validate the exclude patterns in order: the first blank pattern is
/// refused as empty, the first that does not compile as an invalid
/// glob; otherwise every pattern is accepted.
pub fn validate_excludes(patterns: &Vec<String>) -> (r: Result<(), SourceError>)
    ensures
        exists|ok: Seq<bool>|
            #![trigger compile_verdicts(patterns@, ok)]
            {
                &&& compile_verdicts(patterns@, ok)
                &&& (r is Ok <==> first_rejected(patterns@, ok, 0) is None)
                &&& (r matches Err(e) ==> refusal_of(patterns@, first_rejected(patterns@, ok, 0)->0, e))
            },
{
    let ghost mut seen: Seq<bool> = Seq::empty();
    let mut i: usize = 0;
    while i < patterns.len()
        invariant
            i <= patterns@.len(),
            seen.len() == i,
            forall|j: int| 0 <= j < i ==> !spec_is_blank(#[trigger] patterns@[j]@) && seen[j],
            forall|j: int|
                0 <= j < i && !patterns@[j]@.contains('\\') ==> #[trigger] seen[j] == spec_glob_compiles(
                    patterns@[j]@,
                ),
        decreases patterns@.len() - i,
    {
        let p = &patterns[i];
        if is_blank(p.as_str()) {
            proof {
                lemma_completed_verdicts(patterns@, seen);
                let ok = completed_verdicts(patterns@, seen);
                assert forall|j: int| 0 <= j < i implies !spec_is_blank(#[trigger] patterns@[j]@) && ok[j] by {
                    assert(ok[j] == seen[j]);
                }
                lemma_first_rejected_passes(patterns@, ok, 0, i as int);
                assert(first_rejected(patterns@, ok, 0) == Some(i as int));
            }
            return Err(SourceError::EmptyExcludePattern { pattern: p.clone() });
        }
        match compile_glob(p.as_str()) {
            Ok(_) => {
                proof {
                    seen = seen.push(true);
                }
            },
            Err(source) => {
                proof {
                    let s2 = seen.push(false);
                    lemma_completed_verdicts(patterns@, s2);
                    let ok = completed_verdicts(patterns@, s2);
                    assert forall|j: int| 0 <= j < i implies !spec_is_blank(#[trigger] patterns@[j]@) && ok[j] by {
                        assert(ok[j] == s2[j]);
                    }
                    lemma_first_rejected_passes(patterns@, ok, 0, i as int);
                    assert(ok[i as int] == s2[i as int]);
                    assert(first_rejected(patterns@, ok, 0) == Some(i as int));
                }
                return Err(SourceError::InvalidGlob { pattern: p.clone(), source });
            },
        }
        i = i + 1;
    }
    proof {
        lemma_completed_verdicts(patterns@, seen);
        let ok = completed_verdicts(patterns@, seen);
        assert(ok =~= seen);
        lemma_first_rejected_passes(patterns@, ok, 0, patterns@.len() as int);
    }
    Ok(())
}

/// Type of a walked entry, as far as the classification needs it.
#[derive(Debug, Clone, Copy, PartialEq, Eq)]
pub enum EntryKind {
    /// A regular file.
    File,
    /// A symbolic link (never followed).
    Symlink,
    /// A directory, fifo or anything else.
    Other,
}

/// The facts of one walked entry.
#[derive(Debug, Clone)]
pub struct EntryFacts {
    /// Depth below the walk root (the root itself is 0).
    pub depth: usize,
    /// The entry's type, `None` when it could not be determined.
    pub file_type: Option<EntryKind>,
    /// The path as walked, for messages.
    pub display_path: String,
    /// The path relative to the walk root (verbatim when outside it).
    pub relative_path: String,
    /// The file extension, when it has one that is valid text.
    pub extension: Option<String>,
}

/// What the walk does with one entry.
#[derive(Debug)]
pub enum Decision {
    /// Collect the file.
    Include(FilePath),
    /// Ignore the entry.
    Skip,
    /// Record a non-fatal diagnostic.
    Diagnostic(SourceDiagnostic),
}

/// ASCII lower-casing of one character code.
pub open spec fn ascii_lower(c: char) -> u32 {
    if 65 <= (c as u32) <= 90 {
        (c as u32 + 32) as u32
    } else {
        c as u32
    }
}

/// `a` and `b` are equal ignoring ASCII case.
pub open spec fn spec_eq_ignore_ascii_case(a: Seq<char>, b: Seq<char>) -> bool {
    a.len() == b.len() && forall|i: int| 0 <= i < a.len() ==> ascii_lower(#[trigger] a[i]) == ascii_lower(b[i])
}

/// Evaluates [`spec_eq_ignore_ascii_case`].
pub fn eq_ignore_ascii_case(a: &str, b: &str) -> (r: bool)
    ensures
        r == spec_eq_ignore_ascii_case(a@, b@),
{
    let x = chars_of(a);
    let y = chars_of(b);
    if x.len() != y.len() {
        return false;
    }
    let mut i: usize = 0;
    while i < x.len()
        invariant
            x@ == a@,
            y@ == b@,
            x@.len() == y@.len(),
            i <= x@.len(),
            forall|j: int| 0 <= j < i ==> ascii_lower(#[trigger] x@[j]) == ascii_lower(y@[j]),
        decreases x@.len() - i,
    {
        let cx = x[i] as u32;
        let cy = y[i] as u32;
        let lx = if 65 <= cx && cx <= 90 {
            cx + 32
        } else {
            cx
        };
        let ly = if 65 <= cy && cy <= 90 {
            cy + 32
        } else {
            cy
        };
        if lx != ly {
            return false;
        }
        i = i + 1;
    }
    true
}

/// The extension is one of `allowed`, ignoring ASCII case.
pub open spec fn extension_allowed(ext: Option<String>, allowed: Seq<String>) -> bool {
    match ext {
        Some(e) => exists|k: int| 0 <= k < allowed.len() && spec_eq_ignore_ascii_case(#[trigger] allowed[k]@, e@),
        None => false,
    }
}

/// Classify one walked entry: skip the root; record entries of unknown
/// type and symlinks as diagnostics; skip everything but regular files;
/// include a file when no extensions are configured or its extension is
/// one of them, ignoring ASCII case.
pub fn classify_entry(entry: &EntryFacts, allowed_extensions: &Vec<String>) -> (r: Decision)
    ensures
        entry.depth == 0 ==> r is Skip,
        entry.depth != 0 && entry.file_type is None ==> (r matches Decision::Diagnostic(d) && d.kind
            == SourceDiagnosticKind::MidwalkIo && d.path@ == entry.relative_path@ && d.message@
            == "could not determine file type for "@ + entry.display_path@),
        entry.depth != 0 && entry.file_type == Some(EntryKind::Symlink) ==> (r matches Decision::Diagnostic(d)
            && d.kind == SourceDiagnosticKind::Other && d.path@ == entry.relative_path@
            && d.message@ == "symlink not followed: "@ + entry.display_path@),
        entry.depth != 0 && entry.file_type == Some(EntryKind::Other) ==> r is Skip,
        entry.depth != 0 && entry.file_type == Some(EntryKind::File) ==> {
            if allowed_extensions@.len() == 0 || extension_allowed(entry.extension, allowed_extensions@) {
                r matches Decision::Include(p) && p@ == entry.relative_path@
            } else {
                r is Skip
            }
        },
{
    if entry.depth == 0 {
        return Decision::Skip;
    }
    match entry.file_type {
        None => {
            let mut msg = owned("could not determine file type for ");
            push_str(&mut msg, entry.display_path.as_str());
            Decision::Diagnostic(
                SourceDiagnostic::new(
                    FilePath::new(entry.relative_path.as_str()),
                    SourceDiagnosticKind::MidwalkIo,
                    msg.as_str(),
                ),
            )
        },
        Some(EntryKind::Symlink) => {
            let mut msg = owned("symlink not followed: ");
            push_str(&mut msg, entry.display_path.as_str());
            Decision::Diagnostic(
                SourceDiagnostic::new(
                    FilePath::new(entry.relative_path.as_str()),
                    SourceDiagnosticKind::Other,
                    msg.as_str(),
                ),
            )
        },
        Some(EntryKind::Other) => Decision::Skip,
        Some(EntryKind::File) => {
            if allowed_extensions.len() == 0 {
                return Decision::Include(FilePath::new(entry.relative_path.as_str()));
            }
            match &entry.extension {
                None => Decision::Skip,
                Some(ext) => {
                    let mut k: usize = 0;
                    while k < allowed_extensions.len()
                        invariant
                            k <= allowed_extensions@.len(),
                            entry.depth != 0,
                            entry.file_type == Some(EntryKind::File),
                            entry.extension == Some(*ext),
                            forall|m: int|
                                0 <= m < k ==> !spec_eq_ignore_ascii_case(#[trigger] allowed_extensions@[m]@, ext@),
                        decreases allowed_extensions@.len() - k,
                    {
                        if eq_ignore_ascii_case(allowed_extensions[k].as_str(), ext.as_str()) {
                            return Decision::Include(FilePath::new(entry.relative_path.as_str()));
                        }
                        k = k + 1;
                    }
                    Decision::Skip
                },
            }
        },
    }
}

/// A walk error, peeled of its outside type: the wrapping layers that
/// add a path, a depth or a line number, and the underlying failure.
#[derive(Debug)]
pub enum WalkError {
    /// Adds the path being visited.
    WithPath {
        /// The path.
        path: String,
        /// The wrapped error.
        err: Box<WalkError>,
    },
    /// Adds the depth being visited.
    WithDepth {
        /// The wrapped error.
        err: Box<WalkError>,
    },
    /// Adds a line number of an ignore file.
    WithLineNumber {
        /// The wrapped error.
        err: Box<WalkError>,
    },
    /// An I/O failure.
    Io {
        /// Whether the failure was a permission denial.
        permission_denied: bool,
    },
    /// Any other failure.
    Other,
}

/// Kind of the failure under the wrapping layers.
pub open spec fn spec_walk_error_kind(e: WalkError) -> SourceDiagnosticKind
    decreases e,
{
    match e {
        WalkError::WithPath { err, .. } => spec_walk_error_kind(*err),
        WalkError::WithDepth { err } => spec_walk_error_kind(*err),
        WalkError::WithLineNumber { err } => spec_walk_error_kind(*err),
        WalkError::Io { permission_denied } => if permission_denied {
            SourceDiagnosticKind::PermissionDenied
        } else {
            SourceDiagnosticKind::MidwalkIo
        },
        WalkError::Other => SourceDiagnosticKind::Other,
    }
}

/// The outermost path a wrapping layer names, if any.
pub open spec fn spec_walk_error_path(e: WalkError) -> Option<Seq<char>>
    decreases e,
{
    match e {
        WalkError::WithPath { path, .. } => Some(path@),
        WalkError::WithDepth { err } => spec_walk_error_path(*err),
        WalkError::WithLineNumber { err } => spec_walk_error_path(*err),
        _ => None,
    }
}

/// Classify the failure under the wrapping layers: a permission denial,
/// another I/O failure, or anything else.
pub fn walk_error_kind(err: &WalkError) -> (r: SourceDiagnosticKind)
    ensures
        r == spec_walk_error_kind(*err),
    decreases err,
{
    match err {
        WalkError::WithPath { err, .. } => walk_error_kind(err),
        WalkError::WithDepth { err } => walk_error_kind(err),
        WalkError::WithLineNumber { err } => walk_error_kind(err),
        WalkError::Io { permission_denied } => if *permission_denied {
            SourceDiagnosticKind::PermissionDenied
        } else {
            SourceDiagnosticKind::MidwalkIo
        },
        WalkError::Other => SourceDiagnosticKind::Other,
    }
}

/// The path the outermost path-adding layer names, looking through
/// depth and line-number layers.
pub fn walk_error_attributed_path(err: &WalkError) -> (r: Option<&str>)
    ensures
        match spec_walk_error_path(*err) {
            Some(p) => r matches Some(s) && s@ == p,
            None => r is None,
        },
    decreases err,
{
    match err {
        WalkError::WithPath { path, .. } => Some(path.as_str()),
        WalkError::WithDepth { err } => walk_error_attributed_path(err),
        WalkError::WithLineNumber { err } => walk_error_attributed_path(err),
        _ => None,
    }
}

/// `files` is in byte-wise order of their paths: no path sorts before
/// one that comes earlier. UTF-8 keeps code-point order, so comparing the
/// characters compares the bytes.
pub open spec fn in_path_order(files: Seq<FilePath>) -> bool {
    forall|i: int, j: int| 0 <= i < j < files.len() ==> !seq_lt(#[trigger] files[j]@, #[trigger] files[i]@)
}

/// Sort the discovered files byte-wise by path, so that the order of a
/// walk does not depend on the order the filesystem lists entries in.
pub fn sort_discovered(files: &mut Vec<FilePath>)
    ensures
        final(files)@.to_multiset() == old(files)@.to_multiset(),
        forall|i: int, j: int|
            0 <= i < j < final(files)@.len() ==> !seq_lt(#[trigger] final(files)@[j]@, #[trigger] final(files)@[i]@),
{
    broadcast use vstd::seq_lib::group_to_multiset_ensures;
    broadcast use vstd::multiset::group_multiset_axioms;

    let mut sorted: Vec<FilePath> = Vec::new();
    assert(sorted@.to_multiset().add(files@.to_multiset()) =~= old(files)@.to_multiset());
    while files.len() > 0
        invariant
            sorted@.to_multiset().add(files@.to_multiset()) == old(files)@.to_multiset(),
            in_path_order(sorted@),
        decreases files@.len(),
    {
        let ghost before = files@;
        let f = files.pop().unwrap();
        proof {
            assert(before =~= files@.push(f));
        }
        let mut k: usize = 0;
        while k < sorted.len() && !str_lt(f.as_path(), sorted[k].as_path())
            invariant
                k <= sorted@.len(),
                forall|i: int| 0 <= i < k ==> !seq_lt(f@, #[trigger] sorted@[i]@),
            decreases sorted@.len() - k,
        {
            k = k + 1;
        }
        let ghost s = sorted@;
        proof {
            assert forall|j: int| k <= j < s.len() implies !seq_lt(#[trigger] s[j]@, f@) by {
                if seq_lt(s[j]@, f@) {
                    lemma_seq_lt_asymmetric(s[j]@, f@);
                    if j > k {
                        lemma_seq_lt_transitive(s[j]@, f@, s[k as int]@);
                    }
                }
            }
        }
        sorted.insert(k, f);
        proof {
            let t = sorted@;
            assert(t =~= s.insert(k as int, f));
            assert forall|i: int, j: int| 0 <= i < j < t.len() implies !seq_lt(#[trigger] t[j]@, #[trigger] t[i]@) by {
                if j < k {
                    assert(t[i] == s[i] && t[j] == s[j]);
                } else if j == k {
                    assert(t[i] == s[i]);
                } else if i == k {
                    assert(t[j] == s[j - 1]);
                } else if i < k {
                    assert(t[i] == s[i] && t[j] == s[j - 1]);
                } else {
                    assert(t[i] == s[i - 1] && t[j] == s[j - 1]);
                }
            }
            vstd::seq_lib::to_multiset_insert(s, k as int, f);
            vstd::seq_lib::to_multiset_build(files@, f);
            assert(t.to_multiset() == s.to_multiset().insert(f));
            assert(before.to_multiset() == files@.to_multiset().insert(f));
            assert(s.to_multiset().add(before.to_multiset()) == old(files)@.to_multiset());
            assert(t.to_multiset().add(files@.to_multiset()) =~= s.to_multiset().add(before.to_multiset()));
        }
    }
    *files = sorted;
}

/// Lets `ignore::overrides::OverrideBuilder` stand in signatures; its
/// contents stay opaque.
#[verifier::external_type_specification]
#[verifier::external_body]
pub struct ExOverrideBuilder(ignore::overrides::OverrideBuilder);

/// What an `ignore::overrides::OverrideBuilder` holds: the text of each
/// glob line it kept, in the order the lines were added.
pub uninterp spec fn override_lines(builder: ignore::overrides::OverrideBuilder) -> Seq<Seq<char>>;

/// `s` without its trailing whitespace (`str::trim_end`).
pub open spec fn trim_end_ws(s: Seq<char>) -> Seq<char>
    decreases s.len(),
{
    if s.len() > 0 && is_unicode_whitespace(s.last()) {
        trim_end_ws(s.drop_last())
    } else {
        s
    }
}

/// The text that `OverrideBuilder::add` keeps of `line`: trailing
/// whitespace trimmed, unless the line ends in an escaped space (`\ `).
pub open spec fn kept_line(line: Seq<char>) -> Seq<char> {
    if line.len() >= 2 && line[line.len() - 2] == '\\' && line.last() == ' ' {
        line
    } else {
        trim_end_ws(line)
    }
}

/// Whether `OverrideBuilder::add` keeps a glob for `line`: it is no
/// comment (a leading `#`) and not blank once trimmed.
pub open spec fn keeps_glob(line: Seq<char>) -> bool {
    !(line.len() > 0 && line[0] == '#') && kept_line(line).len() > 0
}

/// A line that starts with something other than whitespace keeps that
/// first character when trimmed.
pub proof fn lemma_trim_end_keeps_head(s: Seq<char>)
    requires
        s.len() > 0,
        !is_unicode_whitespace(s[0]),
    ensures
        trim_end_ws(s).len() > 0,
        trim_end_ws(s)[0] == s[0],
    decreases s.len(),
{
    if is_unicode_whitespace(s.last()) {
        assert(s.len() >= 2);
        assert(s.drop_last()[0] == s[0]);
        lemma_trim_end_keeps_head(s.drop_last());
    }
}

/// Whether an `ignore::overrides::OverrideBuilder` refuses a glob with
/// an unclosed character class (`allow_unclosed_class(false)`, the
/// setting `OverrideBuilder::new` makes).
pub uninterp spec fn refuses_unclosed_class(builder: ignore::overrides::OverrideBuilder) -> bool;

/// Whether `GitignoreBuilder::add_line`, on a builder that refuses
/// unclosed character classes, accepts `line`: a comment or blank line is
/// skipped and accepted; any other is accepted when its glob (trimmed,
/// stripped of a leading `!` or `/`, given a `**/` prefix where it holds
/// no `/`) parses with backslash escapes on, which makes the verdict the
/// same on every platform.
pub uninterp spec fn ignore_accepts(line: Seq<char>) -> bool;

/// A builder of override globs matched relative to `root`
/// (`OverrideBuilder::new`, over a `GitignoreBuilder` that starts with
/// no globs): it holds no line and refuses unclosed character classes.
#[verifier::external_body]
fn override_builder(root: &str) -> (r: ignore::overrides::OverrideBuilder)
    ensures
        override_lines(r) == Seq::<Seq<char>>::empty(),
        refuses_unclosed_class(r),
{
    ignore::overrides::OverrideBuilder::new(root)
}

/// Add one glob line to the builder (`OverrideBuilder::add`, which is
/// `GitignoreBuilder::add_line`): a comment line or one blank once
/// trimmed is skipped, any other is trimmed as [`kept_line`] says, parsed
/// as a glob and kept; a glob that does not parse is the `ignore::Error`,
/// and the builder then holds what it held before. On a builder that
/// refuses unclosed character classes the call fails exactly where
/// [`ignore_accepts`] says no; the setting itself is left as it was.
#[verifier::external_body]
fn override_add(builder: &mut ignore::overrides::OverrideBuilder, line: &str) -> (r: Result<(), ignore::Error>)
    ensures
        refuses_unclosed_class(*final(builder)) == refuses_unclosed_class(*old(builder)),
        refuses_unclosed_class(*old(builder)) ==> (r is Err <==> !ignore_accepts(line@)),
        r is Err ==> override_lines(*final(builder)) == override_lines(*old(builder)),
        r is Ok ==> override_lines(*final(builder)) == (if keeps_glob(line@) { override_lines(*old(builder)).push(kept_line(line@)) } else { override_lines(*old(builder)) }),
{
    match builder.add(line) {
        Ok(_) => Ok(()),
        Err(e) => Err(e),
    }
}

/// The override line that excludes what `pattern` matches.
pub open spec fn exclusion_line(pattern: Seq<char>) -> Seq<char> {
    seq!['!'] + pattern
}

/// Builds [`exclusion_line`].
pub fn negated(pattern: &str) -> (r: String)
    ensures
        r@ == exclusion_line(pattern@),
{
    proof {
        reveal_strlit("!");
    }
    let mut s = owned("!");
    push_str(&mut s, pattern);
    s
}

/// Assemble the exclude overrides for a walk rooted at `root`: validate
/// the patterns as [`validate_excludes`] does, then add one exclusion
/// line per pattern, in order; a line the `ignore` crate refuses is an
/// `Ignore` error. On success the builder holds the exclusion line of
/// each pattern, as the crate keeps it, in order. The caller builds the
/// matcher from the result.
pub fn exclude_overrides(root: &str, patterns: &Vec<String>) -> (r: Result<ignore::overrides::OverrideBuilder, SourceError>)
    ensures
        exists|ok: Seq<bool>|
            #![trigger compile_verdicts(patterns@, ok)]
            {
                &&& compile_verdicts(patterns@, ok)
                &&& (first_rejected(patterns@, ok, 0) is None ==> (r is Ok || r matches Err(SourceError::Ignore { .. })))
                &&& (first_rejected(patterns@, ok, 0) is None ==> (r is Ok <==> forall|j: int|
                    0 <= j < patterns@.len() ==> ignore_accepts(#[trigger] exclusion_line(patterns@[j]@))))
                &&& (first_rejected(patterns@, ok, 0) matches Some(k) ==> (r matches Err(e) && refusal_of(patterns@, k, e)))
            },
        r matches Ok(b) ==> override_lines(b) == Seq::new(
            patterns@.len(),
            |j: int| kept_line(exclusion_line(patterns@[j]@)),
        ),
        r matches Err(SourceError::Ignore { .. }) ==> exists|j: int|
            0 <= j < patterns@.len() && !ignore_accepts(#[trigger] exclusion_line(patterns@[j]@)),
        patterns@.len() == 0 ==> r is Ok,
{
    let checked = validate_excludes(patterns);
    let ghost ok = choose|ok: Seq<bool>|
        #![trigger compile_verdicts(patterns@, ok)]
        {
            &&& compile_verdicts(patterns@, ok)
            &&& (checked is Ok <==> first_rejected(patterns@, ok, 0) is None)
            &&& (checked matches Err(e) ==> refusal_of(patterns@, first_rejected(patterns@, ok, 0)->0, e))
        };
    match checked {
        Ok(()) => {},
        Err(e) => {
            return Err(e);
        },
    }
    let mut builder = override_builder(root);
    let mut i: usize = 0;
    while i < patterns.len()
        invariant
            i <= patterns@.len(),
            compile_verdicts(patterns@, ok),
            first_rejected(patterns@, ok, 0) is None,
            override_lines(builder) == Seq::new(i as nat, |j: int| kept_line(exclusion_line(patterns@[j]@))),
            refuses_unclosed_class(builder),
            forall|j: int| 0 <= j < i ==> ignore_accepts(#[trigger] exclusion_line(patterns@[j]@)),
        decreases patterns@.len() - i,
    {
        let line = negated(patterns[i].as_str());
        proof {
            let l = exclusion_line(patterns@[i as int]@);
            assert(l[0] == '!');
            lemma_trim_end_keeps_head(l);
            assert(keeps_glob(l));
        }
        match override_add(&mut builder, line.as_str()) {
            Ok(()) => {},
            Err(source) => {
                assert(!ignore_accepts(exclusion_line(patterns@[i as int]@)));
                return Err(SourceError::Ignore { source });
            },
        }
        assert(override_lines(builder) =~= Seq::new((i + 1) as nat, |j: int| kept_line(exclusion_line(patterns@[j]@))));
        i = i + 1;
    }
    Ok(builder)
}

} // verus!
