//! `AssertionSource` and `recognise()`: data-driven recognition of
//! implicit-assertion sources from a composed macro or call path.

use vstd::prelude::*;

use crate::text::{chars_of, ends_with, equals, starts_with, starts_with_at};

verus! {

/// Frameworks whose test bodies count as having an assertion even when
/// no explicit `assert*!` macro is present.
#[derive(Debug, Clone, Copy, PartialEq, Eq, Hash)]
pub enum AssertionSource {
    /// `proptest!` (or a `*_proptest` wrapper).
    Proptest,
    /// `quickcheck!` or `quickcheck::quickcheck`.
    Quickcheck,
    /// Any path under `kani::`.
    Kani,
    /// The cucumber runner chain terminal.
    Cucumber,
    /// `trybuild::TestCases::*`.
    Trybuild,
    /// The `insta::assert_*` family.
    Insta,
    /// Any path under `pretty_assertions::`.
    PrettyAssertions,
    /// `#[should_panic]` on the test function (not reachable through
    /// [`recognise`]).
    ShouldPanic,
}

/// The recognition table, in precedence order (first match wins):
/// exact keys, then namespace prefixes, then the `_proptest` suffix.
pub open spec fn spec_recognise(path: Seq<char>) -> Option<AssertionSource> {
    if path == "proptest"@ {
        Some(AssertionSource::Proptest)
    } else if path == "quickcheck"@ || path == "quickcheck::quickcheck"@ {
        Some(AssertionSource::Quickcheck)
    } else if path == "cucumber::run"@ || path == "cucumber::Cucumber::run"@ {
        Some(AssertionSource::Cucumber)
    } else if "trybuild::TestCases::"@.is_prefix_of(path) {
        Some(AssertionSource::Trybuild)
    } else if "pretty_assertions::"@.is_prefix_of(path) {
        Some(AssertionSource::PrettyAssertions)
    } else if "kani::"@.is_prefix_of(path) {
        Some(AssertionSource::Kani)
    } else if "insta::"@.is_prefix_of(path) && "assert_"@.is_prefix_of(
        path.skip("insta::"@.len() as int),
    ) {
        Some(AssertionSource::Insta)
    } else if "_proptest"@.is_suffix_of(path) {
        Some(AssertionSource::Proptest)
    } else {
        None
    }
}

/// Recognize an implicit-assertion source from a composed path string,
/// following the precedence of [`spec_recognise`].
pub fn recognise(macro_path: &str) -> (r: Option<AssertionSource>)
    ensures
        r == spec_recognise(macro_path@),
{
    let p = chars_of(macro_path);
    if equals(&p, "proptest") {
        return Some(AssertionSource::Proptest);
    }
    if equals(&p, "quickcheck") || equals(&p, "quickcheck::quickcheck") {
        return Some(AssertionSource::Quickcheck);
    }
    if equals(&p, "cucumber::run") || equals(&p, "cucumber::Cucumber::run") {
        return Some(AssertionSource::Cucumber);
    }
    if starts_with(&p, "trybuild::TestCases::") {
        return Some(AssertionSource::Trybuild);
    }
    if starts_with(&p, "pretty_assertions::") {
        return Some(AssertionSource::PrettyAssertions);
    }
    if starts_with(&p, "kani::") {
        return Some(AssertionSource::Kani);
    }
    if starts_with(&p, "insta::") {
        let n = "insta::".unicode_len();
        if starts_with_at(&p, n, "assert_") {
            return Some(AssertionSource::Insta);
        }
    }
    if ends_with(&p, "_proptest") {
        return Some(AssertionSource::Proptest);
    }
    None
}

} // verus!
