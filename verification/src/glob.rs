//! Glob parsing and matching, delegated to `globset`.

use vstd::prelude::*;

verus! {

/// `globset::Error` — why a glob pattern failed to parse or to build.
#[verifier::external_type_specification]
#[verifier::external_body]
pub struct ExGlobError(globset::Error);

/// Whether `globset::Glob::new` accepts a pattern that holds no
/// backslash (how a backslash is read depends on the platform).
pub uninterp spec fn spec_glob_compiles(pattern: Seq<char>) -> bool;

/// Calls `globset::Glob::new(pattern)`, which parses the pattern into a
/// glob and builds no matcher. Claims only that, for a pattern without a
/// backslash, the result is `Ok` exactly when `Glob::new` accepts it, a
/// function of the pattern alone. A backslash is an escape on Unix and a
/// path separator elsewhere, so for a pattern holding one nothing is
/// claimed.
#[verifier::external_body]
pub(crate) fn compile_glob(pattern: &str) -> (r: Result<(), globset::Error>)
    ensures
        !pattern@.contains('\\') ==> (r is Ok <==> spec_glob_compiles(pattern@)),
{
    match globset::Glob::new(pattern) {
        Ok(_) => Ok(()),
        Err(e) => Err(e),
    }
}

/// Whether `globset::GlobSetBuilder::build` succeeds on a builder holding
/// the one glob that `Glob::new` parsed from a backslash-free `pattern`
/// (it fails, with an error, where the glob's regex outgrows globset's
/// size limit).
pub uninterp spec fn spec_glob_set_builds(pattern: Seq<char>) -> bool;

/// Whether the one-glob `GlobSet` built from `pattern` matches `path` by
/// `GlobSet::is_match`.
pub uninterp spec fn spec_glob_matches(pattern: Seq<char>, path: Seq<char>) -> bool;

/// Neither text holds a backslash. globset reads a backslash by platform:
/// as an escape in patterns and a plain byte in paths on Unix, as a path
/// separator elsewhere; texts without one are read alike everywhere.
pub open spec fn backslash_free(pattern: Seq<char>, path: Seq<char>) -> bool {
    !pattern.contains('\\') && !path.contains('\\')
}

/// The patterns handed to [`glob_is_match`] are shorter than this many
/// characters (at most 2^30 bytes). `GlobSetBuilder::build` unwraps
/// `aho_corasick::AhoCorasick::new` on the literal part of a glob, which
/// fails only once the literal needs about 2^31 automaton states.
pub const MAX_GLOB_CHARS: usize = 0x1000_0000;

/// Calls `globset::Glob::new(pattern)`; when it accepts the pattern, adds
/// the glob to a fresh `GlobSetBuilder`, calls `build`, and, when that
/// succeeds, `GlobSet::is_match(path)`. Both refusals are errors that come
/// back as `None`. Claims that, for a pattern without a backslash, the
/// result is `None` exactly when `Glob::new` refuses the pattern or the
/// set does not build, and, for texts without a backslash, that the
/// answer is named [`spec_glob_matches`], a function of the two strings.
/// Where a backslash occurs the answer depends on the platform, and
/// nothing is claimed of it.
#[verifier::external_body]
pub(crate) fn glob_is_match(pattern: &str, path: &str) -> (r: Option<bool>)
    requires
        pattern@.len() < MAX_GLOB_CHARS,
    ensures
        !pattern@.contains('\\') ==> (r is Some <==> (spec_glob_compiles(pattern@) && spec_glob_set_builds(pattern@))),
        r matches Some(b) ==> (backslash_free(pattern@, path@) ==> b == spec_glob_matches(pattern@, path@)),
{
    match globset::Glob::new(pattern) {
        Ok(glob) => {
            let mut builder = globset::GlobSetBuilder::new();
            builder.add(glob);
            match builder.build() {
                Ok(set) => Some(set.is_match(path)),
                Err(_) => None,
            }
        },
        Err(_) => None,
    }
}

} // verus!
