//! Path texts: what `std::path` answers about them, and where every
//! platform answers alike.

use vstd::prelude::*;

use crate::text::owned;

verus! {

/// A path text that every platform reads alike: no backslash, no colon
/// (no drive or other Windows prefix) and no leading `//` (no UNC
/// prefix). It splits into components at `/` wherever it is read.
pub open spec fn portable_path(p: Seq<char>) -> bool {
    &&& !p.contains('\\')
    &&& !p.contains(':')
    &&& !(p.len() >= 2 && p[0] == '/' && p[1] == '/')
}

/// `p` begins at the root: its first character is `/`.
pub open spec fn starts_at_root(p: Seq<char>) -> bool {
    p.len() > 0 && p[0] == '/'
}

/// Whether `p` is absolute under the platform's path rules
/// (`std::path::Path::is_absolute`). On Unix a path is absolute when it
/// starts with `/`; on Windows only a path with a prefix (a drive such as
/// `C:`, or a `\\` or `//` UNC prefix) and a root is. The answer for a
/// path that starts with `/` therefore differs between platforms and is
/// left unstated; claimed is only what holds on both: a portable path
/// that does not start at the root is not absolute.
#[verifier::external_body]
pub(crate) fn path_is_absolute(p: &str) -> (r: bool)
    ensures
        portable_path(p@) && !starts_at_root(p@) ==> !r,
{
    std::path::Path::new(p).is_absolute()
}

/// The text that `std::path::Path::strip_prefix` leaves of `p` once the
/// leading components of `base` are removed, or `None` when `base` is not
/// a component prefix of `p`, for portable texts (which every platform
/// splits alike).
pub uninterp spec fn spec_strip_prefix(p: Seq<char>, base: Seq<char>) -> Option<Seq<char>>;

/// `std::path::Path::strip_prefix(base)` on `p`, converted back to text
/// (`to_string_lossy`, which keeps text that came from a `&str`).
/// Claims, for portable texts, that the result is named
/// [`spec_strip_prefix`], a function of the two strings; how other texts
/// split into components depends on the platform, and nothing is claimed
/// of them.
#[verifier::external_body]
pub(crate) fn path_strip_prefix(p: &str, base: &str) -> (r: Option<String>)
    ensures
        portable_path(p@) && portable_path(base@) ==> (r is None <==> spec_strip_prefix(p@, base@) is None),
        r matches Some(s) ==> (portable_path(p@) && portable_path(base@) ==> spec_strip_prefix(p@, base@) == Some(s@)),
{
    match std::path::Path::new(p).strip_prefix(base) {
        Ok(rel) => Some(rel.to_string_lossy().into_owned()),
        Err(_) => None,
    }
}

/// The path shown for `file_path` given the platform's answers: whether
/// it is absolute, and what stripping the working directory left of it.
/// A relative path, and an absolute one outside the working directory,
/// are shown unchanged.
pub fn relative_or_unchanged(file_path: &str, absolute: bool, stripped: Option<String>) -> (r: String)
    ensures
        r@ == (if !absolute {
            file_path@
        } else {
            match stripped {
                Some(rel) => rel@,
                None => file_path@,
            }
        }),
{
    if !absolute {
        return owned(file_path);
    }
    match stripped {
        Some(rel) => rel,
        None => owned(file_path),
    }
}

/// The text of `entry` relative to `root`: what stripping the leading
/// components of `root` leaves (`Path::strip_prefix`), or `entry` whole
/// where `root` is not a component prefix of it.
pub fn relative_to(entry: &str, root: &str) -> (r: String)
    ensures
        portable_path(entry@) && portable_path(root@) ==> r@ == (match spec_strip_prefix(entry@, root@) {
            Some(rel) => rel,
            None => entry@,
        }),
{
    let stripped = path_strip_prefix(entry, root);
    relative_or_unchanged(entry, true, stripped)
}

} // verus!
