//! SARIF rule metadata: one description per smell category. The rule
//! id is not stored here; it is the category's wire string.

use vstd::prelude::*;

use crate::domain::smell::{default_message_text, SmellCategory};

verus! {

/// Static rule metadata of one smell category.
#[derive(Debug, Clone, Copy, PartialEq, Eq)]
pub struct RuleDescription {
    /// PascalCase rule name.
    pub name: &'static str,
    /// One-line summary.
    pub short_description: &'static str,
    /// Multi-sentence detail.
    pub full_description: &'static str,
}

/// PascalCase rule name of a category.
pub open spec fn rule_name(category: SmellCategory) -> Seq<char> {
    match category {
        SmellCategory::ZeroAssertion => "ZeroAssertion"@,
        SmellCategory::TautologicalAssertion => "TautologicalAssertion"@,
        SmellCategory::NoOpIo => "NoOpIo"@,
        SmellCategory::SurfaceOnlyIo => "SurfaceOnlyIo"@,
        SmellCategory::LargeExample => "LargeExample"@,
    }
}

/// One-line summary of a category.
pub open spec fn rule_short(category: SmellCategory) -> Seq<char> {
    match category {
        SmellCategory::ZeroAssertion => "Test exercises the system under test but never asserts on the result."@,
        SmellCategory::TautologicalAssertion => "Assertion is structurally incapable of failing."@,
        SmellCategory::NoOpIo => "I/O is performed but its result is discarded."@,
        SmellCategory::SurfaceOnlyIo => "Test asserts only on I/O surface metadata, not the payload."@,
        SmellCategory::LargeExample => "Test body exceeds the configured line threshold."@,
    }
}

/// Multi-sentence detail of a category.
pub open spec fn rule_full(category: SmellCategory) -> Seq<char> {
    match category {
        SmellCategory::ZeroAssertion => "The test body invokes the code under test but contains no assertion (and no implicit-assertion source such as proptest, quickcheck, cucumber, trybuild, insta, kani, or #[should_panic]). A passing run proves only that the code did not panic — add assertions for the function's observable effects."@,
        SmellCategory::TautologicalAssertion => "An assertion such as assert!(true), assert_eq!(x, x), or a literal-vs-literal comparison can never fail and therefore conveys no information. Replace the tautology with an assertion that exercises the actual behavior under test."@,
        SmellCategory::NoOpIo => "The test performs I/O (file open/read, HTTP request, etc.) whose result is bound to `_` or otherwise discarded with no follow-up check. Inspect or assert on the data returned by the I/O call so the test verifies behavior rather than mere execution."@,
        SmellCategory::SurfaceOnlyIo => "The test asserts only on surface-level metadata of an I/O operation (a status code, file existence) without inspecting the substantive payload. Assert on the returned data, not just that the operation appeared to occur."@,
        SmellCategory::LargeExample => "The test body is longer than the configured line threshold, a signal that it tests multiple behaviors at once or carries heavy inline setup. Split it into focused examples or extract setup helpers so each test has a single reason to fail."@,
    }
}

/// The rule description of `category`.
pub fn rule_description(category: SmellCategory) -> (r: RuleDescription)
    ensures
        r.name@ == rule_name(category),
        r.short_description@ == rule_short(category),
        r.full_description@ == rule_full(category),
{
    match category {
        SmellCategory::ZeroAssertion => RuleDescription {
            name: "ZeroAssertion",
            short_description: "Test exercises the system under test but never asserts on the result.",
            full_description: "The test body invokes the code under test but contains no assertion (and no implicit-assertion source such as proptest, quickcheck, cucumber, trybuild, insta, kani, or #[should_panic]). A passing run proves only that the code did not panic — add assertions for the function's observable effects.",
        },
        SmellCategory::TautologicalAssertion => RuleDescription {
            name: "TautologicalAssertion",
            short_description: "Assertion is structurally incapable of failing.",
            full_description: "An assertion such as assert!(true), assert_eq!(x, x), or a literal-vs-literal comparison can never fail and therefore conveys no information. Replace the tautology with an assertion that exercises the actual behavior under test.",
        },
        SmellCategory::NoOpIo => RuleDescription {
            name: "NoOpIo",
            short_description: "I/O is performed but its result is discarded.",
            full_description: "The test performs I/O (file open/read, HTTP request, etc.) whose result is bound to `_` or otherwise discarded with no follow-up check. Inspect or assert on the data returned by the I/O call so the test verifies behavior rather than mere execution.",
        },
        SmellCategory::SurfaceOnlyIo => RuleDescription {
            name: "SurfaceOnlyIo",
            short_description: "Test asserts only on I/O surface metadata, not the payload.",
            full_description: "The test asserts only on surface-level metadata of an I/O operation (a status code, file existence) without inspecting the substantive payload. Assert on the returned data, not just that the operation appeared to occur.",
        },
        SmellCategory::LargeExample => RuleDescription {
            name: "LargeExample",
            short_description: "Test body exceeds the configured line threshold.",
            full_description: "The test body is longer than the configured line threshold, a signal that it tests multiple behaviors at once or carries heavy inline setup. Split it into focused examples or extract setup helpers so each test has a single reason to fail.",
        },
    }
}

/// ASCII upper case of `c`.
pub open spec fn ascii_upper(c: char) -> char {
    let u = c as u32;
    if 97 <= u <= 122 {
        (u - 32) as char
    } else {
        c
    }
}

/// A snake_case text in PascalCase from here on: underscores dropped and
/// the letter after each, and the first when `cap`, upper-cased.
pub open spec fn pascal_from(s: Seq<char>, cap: bool) -> Seq<char>
    decreases s.len(),
{
    if s.len() == 0 {
        Seq::empty()
    } else if s[0] == '_' {
        pascal_from(s.drop_first(), true)
    } else {
        seq![if cap { ascii_upper(s[0]) } else { s[0] }] + pascal_from(s.drop_first(), false)
    }
}

/// The PascalCase form of a snake_case text.
pub open spec fn pascal_case(s: Seq<char>) -> Seq<char> {
    pascal_from(s, true)
}

/// `a` and `b` share a run of at least `n` characters.
pub open spec fn share_run(a: Seq<char>, b: Seq<char>, n: nat) -> bool {
    exists|i: int, j: int|
        0 <= i && i + n <= a.len() && 0 <= j && j + n <= b.len() && #[trigger] a.subrange(i, i + n)
            == #[trigger] b.subrange(j, j + n)
}

/// The PascalCase form of `zero_assertion`.
#[verifier::rlimit(50)]
proof fn lemma_pascal_zero_assertion()
    ensures
        pascal_case("zero_assertion"@) == "ZeroAssertion"@,
{
    reveal_strlit("zero_assertion");
    reveal_strlit("ZeroAssertion");
    reveal_with_fuel(pascal_from, 16);
    assert(pascal_case("zero_assertion"@) =~= "ZeroAssertion"@);
}

/// The PascalCase form of `tautological_assertion`.
#[verifier::rlimit(50)]
proof fn lemma_pascal_tautological_assertion()
    ensures
        pascal_case("tautological_assertion"@) == "TautologicalAssertion"@,
{
    reveal_strlit("tautological_assertion");
    reveal_strlit("TautologicalAssertion");
    reveal_with_fuel(pascal_from, 24);
    assert(pascal_case("tautological_assertion"@) =~= "TautologicalAssertion"@);
}

/// The PascalCase form of `no_op_io`.
#[verifier::rlimit(50)]
proof fn lemma_pascal_no_op_io()
    ensures
        pascal_case("no_op_io"@) == "NoOpIo"@,
{
    reveal_strlit("no_op_io");
    reveal_strlit("NoOpIo");
    reveal_with_fuel(pascal_from, 10);
    assert(pascal_case("no_op_io"@) =~= "NoOpIo"@);
}

/// The PascalCase form of `surface_only_io`.
#[verifier::rlimit(50)]
proof fn lemma_pascal_surface_only_io()
    ensures
        pascal_case("surface_only_io"@) == "SurfaceOnlyIo"@,
{
    reveal_strlit("surface_only_io");
    reveal_strlit("SurfaceOnlyIo");
    reveal_with_fuel(pascal_from, 17);
    assert(pascal_case("surface_only_io"@) =~= "SurfaceOnlyIo"@);
}

/// The PascalCase form of `large_example`.
#[verifier::rlimit(50)]
proof fn lemma_pascal_large_example()
    ensures
        pascal_case("large_example"@) == "LargeExample"@,
{
    reveal_strlit("large_example");
    reveal_strlit("LargeExample");
    reveal_with_fuel(pascal_from, 15);
    assert(pascal_case("large_example"@) =~= "LargeExample"@);
}

/// Law: every rule's name is its id (the category's wire string) in
/// PascalCase.
pub proof fn law_rule_name_is_pascal_id(category: SmellCategory)
    ensures
        rule_name(category) == pascal_case(category.wire()),
{
    match category {
        SmellCategory::ZeroAssertion => lemma_pascal_zero_assertion(),
        SmellCategory::TautologicalAssertion => lemma_pascal_tautological_assertion(),
        SmellCategory::NoOpIo => lemma_pascal_no_op_io(),
        SmellCategory::SurfaceOnlyIo => lemma_pascal_surface_only_io(),
        SmellCategory::LargeExample => lemma_pascal_large_example(),
    }
}

/// Law: every rule's full description carries the remediation of the
/// smell with that id: it shares a run of twenty characters with the
/// default message the detectors attach to a smell of that category.
pub proof fn law_rule_full_carries_remediation(category: SmellCategory)
    ensures
        share_run(rule_full(category), default_message_text(category), 20),
{
    match category {
        SmellCategory::ZeroAssertion => {
            reveal_strlit("The test body invokes the code under test but contains no assertion (and no implicit-assertion source such as proptest, quickcheck, cucumber, trybuild, insta, kani, or #[should_panic]). A passing run proves only that the code did not panic — add assertions for the function's observable effects.");
            reveal_strlit("Add assertions for the function's observable effects.");
            let a = rule_full(category);
            let b = default_message_text(category);
            let i: int = 243;
            let j: int = 1;
            let n: nat = 20;
            assert(a.subrange(i, i + n) =~= b.subrange(j, j + n));
        },
        SmellCategory::TautologicalAssertion => {
            reveal_strlit("An assertion such as assert!(true), assert_eq!(x, x), or a literal-vs-literal comparison can never fail and therefore conveys no information. Replace the tautology with an assertion that exercises the actual behavior under test.");
            reveal_strlit("Replace the tautology with an assertion that can actually fail.");
            let a = rule_full(category);
            let b = default_message_text(category);
            let i: int = 142;
            let j: int = 0;
            let n: nat = 20;
            assert(a.subrange(i, i + n) =~= b.subrange(j, j + n));
        },
        SmellCategory::NoOpIo => {
            reveal_strlit("The test performs I/O (file open/read, HTTP request, etc.) whose result is bound to `_` or otherwise discarded with no follow-up check. Inspect or assert on the data returned by the I/O call so the test verifies behavior rather than mere execution.");
            reveal_strlit("Inspect or assert on the data returned by the I/O call.");
            let a = rule_full(category);
            let b = default_message_text(category);
            let i: int = 136;
            let j: int = 0;
            let n: nat = 20;
            assert(a.subrange(i, i + n) =~= b.subrange(j, j + n));
        },
        SmellCategory::SurfaceOnlyIo => {
            reveal_strlit("The test asserts only on surface-level metadata of an I/O operation (a status code, file existence) without inspecting the substantive payload. Assert on the returned data, not just that the operation appeared to occur.");
            reveal_strlit("Assert on the substantive payload, not just the response status.");
            let a = rule_full(category);
            let b = default_message_text(category);
            let i: int = 118;
            let j: int = 9;
            let n: nat = 20;
            assert(a.subrange(i, i + n) =~= b.subrange(j, j + n));
        },
        SmellCategory::LargeExample => {
            reveal_strlit("The test body is longer than the configured line threshold, a signal that it tests multiple behaviors at once or carries heavy inline setup. Split it into focused examples or extract setup helpers so each test has a single reason to fail.");
            reveal_strlit("Split this example into focused tests or extract setup helpers.");
            let a = rule_full(category);
            let b = default_message_text(category);
            let i: int = 170;
            let j: int = 36;
            let n: nat = 20;
            assert(a.subrange(i, i + n) =~= b.subrange(j, j + n));
        },
    }
}

/// Law: every rule's short description summarizes its own full
/// description: the two share a run of nine characters.
pub proof fn law_rule_short_summarizes_full(category: SmellCategory)
    ensures
        share_run(rule_short(category), rule_full(category), 9),
{
    match category {
        SmellCategory::ZeroAssertion => {
            reveal_strlit("Test exercises the system under test but never asserts on the result.");
            reveal_strlit("The test body invokes the code under test but contains no assertion (and no implicit-assertion source such as proptest, quickcheck, cucumber, trybuild, insta, kani, or #[should_panic]). A passing run proves only that the code did not panic — add assertions for the function's observable effects.");
            let a = rule_short(category);
            let b = rule_full(category);
            let i: int = 25;
            let j: int = 30;
            let n: nat = 9;
            assert(a.subrange(i, i + n) =~= b.subrange(j, j + n));
        },
        SmellCategory::TautologicalAssertion => {
            reveal_strlit("Assertion is structurally incapable of failing.");
            reveal_strlit("An assertion such as assert!(true), assert_eq!(x, x), or a literal-vs-literal comparison can never fail and therefore conveys no information. Replace the tautology with an assertion that exercises the actual behavior under test.");
            let a = rule_short(category);
            let b = rule_full(category);
            let i: int = 1;
            let j: int = 4;
            let n: nat = 9;
            assert(a.subrange(i, i + n) =~= b.subrange(j, j + n));
        },
        SmellCategory::NoOpIo => {
            reveal_strlit("I/O is performed but its result is discarded.");
            reveal_strlit("The test performs I/O (file open/read, HTTP request, etc.) whose result is bound to `_` or otherwise discarded with no follow-up check. Inspect or assert on the data returned by the I/O call so the test verifies behavior rather than mere execution.");
            let a = rule_short(category);
            let b = rule_full(category);
            let i: int = 24;
            let j: int = 64;
            let n: nat = 9;
            assert(a.subrange(i, i + n) =~= b.subrange(j, j + n));
        },
        SmellCategory::SurfaceOnlyIo => {
            reveal_strlit("Test asserts only on I/O surface metadata, not the payload.");
            reveal_strlit("The test asserts only on surface-level metadata of an I/O operation (a status code, file existence) without inspecting the substantive payload. Assert on the returned data, not just that the operation appeared to occur.");
            let a = rule_short(category);
            let b = rule_full(category);
            let i: int = 1;
            let j: int = 5;
            let n: nat = 9;
            assert(a.subrange(i, i + n) =~= b.subrange(j, j + n));
        },
        SmellCategory::LargeExample => {
            reveal_strlit("Test body exceeds the configured line threshold.");
            reveal_strlit("The test body is longer than the configured line threshold, a signal that it tests multiple behaviors at once or carries heavy inline setup. Split it into focused examples or extract setup helpers so each test has a single reason to fail.");
            let a = rule_short(category);
            let b = rule_full(category);
            let i: int = 1;
            let j: int = 5;
            let n: nat = 9;
            assert(a.subrange(i, i + n) =~= b.subrange(j, j + n));
        },
    }
}

} // verus!
