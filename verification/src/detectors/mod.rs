//! Per-smell detectors and the `detect_all` aggregator.
//!
//! Each detector reads language-agnostic facts of one parsed test and
//! answers whether its smell is present. Detectors never consult
//! per-test opt-outs; honouring those is the pipeline's concern.

use vstd::prelude::*;

use crate::domain::behavioral_fact::BehavioralFact;
use crate::domain::classification::{Actionability, Severity};
use crate::domain::config::{
    admissible_matches, exact_matches, override_matches, portable_overrides, resolve_detector_config, resolved_config, DetectorConfig,
    FileConfig,
};
use crate::domain::finding::{total_penalty, Finding};
use crate::domain::parsed::ParsedTest;
use crate::domain::smell::{Smell, SmellCategory};
use crate::domain::types::Span;

pub mod large_example;
pub mod no_op_io;
pub mod surface_only_io;
pub mod tautological_assertion;
pub mod zero_assertion;

verus! {

/// Classification, penalty and span of one expected smell; its message is
/// always the category's default.
pub type SmellShape = (SmellCategory, Severity, Actionability, u32, Option<Span>);

/// Whether `smells` are exactly the default-message smells described by
/// `shapes`, in order.
pub open spec fn smells_match(smells: Seq<Smell>, shapes: Seq<SmellShape>) -> bool {
    &&& smells.len() == shapes.len()
    &&& forall|j: int|
        0 <= j < smells.len() ==> #[trigger] smells[j].is_default(
            shapes[j].0,
            shapes[j].1,
            shapes[j].2,
            shapes[j].3,
            shapes[j].4,
        )
}

/// Whether `f` is the single-smell finding a whole-test detector emits
/// for `parsed`: the test's identity, one default-message smell located
/// at the whole test, and a score equal to the penalty.
pub open spec fn is_whole_test_finding(
    f: Finding,
    parsed: ParsedTest,
    category: SmellCategory,
    severity: Severity,
    actionability: Actionability,
    penalty: u32,
) -> bool {
    &&& f.test == parsed.identity
    &&& f.smells@.len() == 1
    &&& f.smells@[0].is_default(category, severity, actionability, penalty, Some(parsed.identity.span))
    &&& f.scrap_score == penalty
    &&& !f.exceeds_threshold
}

/// The body carries a `.unwrap()` / `.expect()` chain fact.
pub open spec fn has_result_asserted(parsed: ParsedTest) -> bool {
    exists|i: int|
        0 <= i < parsed.behavioral_facts@.len() && #[trigger] parsed.behavioral_facts@[i]
            is ResultAsserted
}

/// Positive evidence that the test observes the system under test: an
/// explicit assertion, an implicit-assertion source, or an
/// unwrap/expect chain.
pub open spec fn spec_has_positive_check(parsed: ParsedTest) -> bool {
    ||| parsed.assertions@.len() > 0
    ||| parsed.implicit_assertion_sources@.len() > 0
    ||| has_result_asserted(parsed)
}

/// Evaluates [`spec_has_positive_check`]; shared by the zero-assertion
/// and no-op-io detectors so their suppression cannot drift.
pub fn has_positive_check(parsed: &ParsedTest) -> (r: bool)
    ensures
        r == spec_has_positive_check(*parsed),
{
    if parsed.assertions.len() > 0 || parsed.implicit_assertion_sources.len() > 0 {
        return true;
    }
    let mut i: usize = 0;
    while i < parsed.behavioral_facts.len()
        invariant
            i <= parsed.behavioral_facts@.len(),
            forall|j: int| 0 <= j < i ==> !(#[trigger] parsed.behavioral_facts@[j] is ResultAsserted),
        decreases parsed.behavioral_facts@.len() - i,
    {
        if let BehavioralFact::ResultAsserted = &parsed.behavioral_facts[i] {
            return true;
        }
        i = i + 1;
    }
    false
}

/// Build the single-smell, whole-test finding for `parsed`.
pub(crate) fn whole_test_finding(
    parsed: &ParsedTest,
    category: SmellCategory,
    severity: Severity,
    actionability: Actionability,
    penalty: u32,
) -> (f: Finding)
    ensures
        is_whole_test_finding(f, *parsed, category, severity, actionability, penalty),
{
    let smell = Smell::new(category, severity, actionability, penalty, Some(parsed.identity.span));
    let smells = vec![smell];
    let f = Finding::new(parsed.identity.clone(), smells);
    assert(f.smells@.drop_last() =~= Seq::<Smell>::empty());
    assert(total_penalty(Seq::<Smell>::empty()) == 0);
    assert(f.smells@.last() == smell);
    assert(total_penalty(f.smells@) == penalty);
    f
}

/// The smell shapes a whole-test detector contributes: one located at the
/// whole test when it fires, none otherwise.
pub open spec fn whole_test_shapes(
    fires: bool,
    parsed: ParsedTest,
    category: SmellCategory,
    severity: Severity,
    actionability: Actionability,
    penalty: u32,
) -> Seq<SmellShape> {
    if fires {
        seq![(category, severity, actionability, penalty, Some(parsed.identity.span))]
    } else {
        Seq::empty()
    }
}

/// Every smell of `parsed` under `cfg`, given which overrides apply to
/// its file: zero-assertion, tautological-assertion, no-op-io,
/// surface-only-io and large-example contributions, in that order, each
/// detector reading its own resolved configuration.
pub open spec fn expected_smells(parsed: ParsedTest, cfg: FileConfig, applies: Seq<bool>) -> Seq<
    SmellShape,
> {
    zero_assertion::expected(parsed, resolved_config(cfg, applies, SmellCategory::ZeroAssertion))
        + tautological_assertion::expected(
        parsed,
        resolved_config(cfg, applies, SmellCategory::TautologicalAssertion),
    ) + no_op_io::expected(parsed, resolved_config(cfg, applies, SmellCategory::NoOpIo))
        + surface_only_io::expected(
        parsed,
        resolved_config(cfg, applies, SmellCategory::SurfaceOnlyIo),
    ) + large_example::expected(parsed, resolved_config(cfg, applies, SmellCategory::LargeExample))
}

/// A test carries at most one smell per whole-test detector and one per
/// assertion.
pub proof fn lemma_expected_smells_len(parsed: ParsedTest, cfg: FileConfig, applies: Seq<bool>)
    ensures
        expected_smells(parsed, cfg, applies).len() <= 4 + parsed.assertions@.len(),
{
    let ta = resolved_config(cfg, applies, SmellCategory::TautologicalAssertion);
    tautological_assertion::lemma_tautology_shapes_len(
        parsed.assertions@,
        tautological_assertion::penalty(ta),
    );
}

/// Append the smells of `finding`, if any, to `out`.
fn extend_from(out: &mut Vec<Smell>, finding: Option<Finding>)
    ensures
        finding is None ==> final(out)@ == old(out)@,
        finding matches Some(f) ==> final(out)@ == old(out)@ + f.smells@,
{
    if let Some(f) = finding {
        let mut smells = f.smells;
        out.append(&mut smells);
    }
}

/// Run every detector against `parsed`, resolving each detector's
/// configuration with `applies` telling which overrides of `cfg` apply
/// to the test's file.
pub fn detect_all_with(parsed: &ParsedTest, cfg: &FileConfig, applies: &Vec<bool>) -> (r: Vec<Smell>)
    requires
        applies@.len() == cfg.overrides@.len(),
    ensures
        smells_match(r@, expected_smells(*parsed, *cfg, applies@)),
{
    let mut smells: Vec<Smell> = Vec::new();
    let za = resolve_detector_config(cfg, SmellCategory::ZeroAssertion, applies);
    extend_from(&mut smells, zero_assertion::detect(parsed, &za));
    let ghost s1 = smells@;
    assert(smells_match(s1, zero_assertion::expected(*parsed, za)));

    let ta = resolve_detector_config(cfg, SmellCategory::TautologicalAssertion, applies);
    let taut = tautological_assertion::detect_configured(parsed, &ta);
    let mut taut = taut;
    smells.append(&mut taut);
    let ghost s2 = smells@;
    assert(smells_match(s2, zero_assertion::expected(*parsed, za) + tautological_assertion::expected(*parsed, ta)));

    let no = resolve_detector_config(cfg, SmellCategory::NoOpIo, applies);
    extend_from(&mut smells, no_op_io::detect(parsed, &no));
    let ghost s3 = smells@;
    assert(smells_match(s3, zero_assertion::expected(*parsed, za) + tautological_assertion::expected(*parsed, ta) + no_op_io::expected(*parsed, no)));

    let so = resolve_detector_config(cfg, SmellCategory::SurfaceOnlyIo, applies);
    extend_from(&mut smells, surface_only_io::detect(parsed, &so));
    let ghost s4 = smells@;
    assert(smells_match(s4, zero_assertion::expected(*parsed, za) + tautological_assertion::expected(*parsed, ta) + no_op_io::expected(*parsed, no) + surface_only_io::expected(*parsed, so)));

    let le = resolve_detector_config(cfg, SmellCategory::LargeExample, applies);
    extend_from(&mut smells, large_example::detect(parsed, &le));
    smells
}

/// Run every enabled detector against `parsed` and return the union of
/// the produced smells. Each detector's configuration is resolved for the
/// test's file with [`crate::domain::config::resolve_detector_for_path`]
/// semantics.
pub fn detect_all(parsed: &ParsedTest, cfg: &FileConfig) -> (r: Vec<Smell>)
    ensures
        exists|applies: Seq<bool>|
            admissible_matches(*cfg, parsed.identity.file_path@, applies) && smells_match(
                r@,
                expected_smells(*parsed, *cfg, applies),
            ),
        portable_overrides(*cfg, parsed.identity.file_path@) ==> smells_match(
            r@,
            expected_smells(*parsed, *cfg, exact_matches(*cfg, parsed.identity.file_path@)),
        ),
{
    let applies = override_matches(cfg, parsed.identity.file_path.as_path());
    detect_all_with(parsed, cfg, &applies)
}

/// A no-op-io smell implies a zero-assertion smell: a body that only
/// discards and checks nothing has no positive check, so whenever the
/// zero-assertion detector is enabled it fires too, and the two
/// penalties stack.
pub proof fn law_no_op_io_within_zero_assertion(
    parsed: ParsedTest,
    no_op_cfg: DetectorConfig,
    zero_cfg: DetectorConfig,
)
    requires
        zero_cfg.enabled != Some(false),
        no_op_io::fires(parsed, no_op_cfg),
    ensures
        zero_assertion::fires(parsed, zero_cfg),
{
}

/// The large-example verdict depends on the body length and the
/// configuration alone: tests that differ only in assertions, implicit
/// sources or behavioral facts get the same verdict.
pub proof fn law_large_example_is_structural(a: ParsedTest, b: ParsedTest, cfg: DetectorConfig)
    requires
        a.body_line_count == b.body_line_count,
    ensures
        large_example::fires(a, cfg) == large_example::fires(b, cfg),
{
}

/// The surface-only-io verdict ignores assertions: a test that asserts
/// and still only checks the surface keeps the smell.
pub proof fn law_surface_only_io_ignores_assertions(a: ParsedTest, b: ParsedTest, cfg: DetectorConfig)
    requires
        a.behavioral_facts@ == b.behavioral_facts@,
    ensures
        surface_only_io::fires(a, cfg) == surface_only_io::fires(b, cfg),
{
    assert(surface_only_io::spec_has_surface_only_key(a) == surface_only_io::spec_has_surface_only_key(b)) by {
        assert forall|key: Seq<char>| surface_only_io::surface_only(a, key) == surface_only_io::surface_only(b, key) by {
        }
    }
}

/// A disabled detector contributes nothing, whatever the test.
pub proof fn law_disabled_detectors_are_silent(parsed: ParsedTest, cfg: DetectorConfig)
    requires
        cfg.enabled == Some(false),
    ensures
        zero_assertion::expected(parsed, cfg).len() == 0,
        tautological_assertion::expected(parsed, cfg).len() == 0,
        no_op_io::expected(parsed, cfg).len() == 0,
        surface_only_io::expected(parsed, cfg).len() == 0,
        large_example::expected(parsed, cfg).len() == 0,
{
}

/// Any positive check (an explicit assertion, an implicit assertion
/// source or an asserted result) silences the zero-assertion and the
/// no-op-io detectors, whatever their configuration.
pub proof fn law_positive_check_silences(parsed: ParsedTest, zero_cfg: DetectorConfig, no_op_cfg: DetectorConfig)
    requires
        spec_has_positive_check(parsed),
    ensures
        !zero_assertion::fires(parsed, zero_cfg),
        !no_op_io::fires(parsed, no_op_cfg),
{
}

/// The large-example verdict is upward closed in the body length: a
/// body at least as long as one that fires fires too, and a body at the
/// threshold never fires.
pub proof fn law_large_example_is_monotonic(a: ParsedTest, b: ParsedTest, cfg: DetectorConfig)
    requires
        a.body_line_count <= b.body_line_count,
    ensures
        large_example::fires(a, cfg) ==> large_example::fires(b, cfg),
        a.body_line_count == large_example::threshold(cfg) ==> !large_example::fires(a, cfg),
{
}

/// Reading back every written key disarms surface-only-io: the smell
/// needs a key that is written and surface-checked but never read.
pub proof fn law_read_back_disarms_surface_only_io(parsed: ParsedTest, cfg: DetectorConfig)
    requires
        forall|key: Seq<char>| surface_only_io::writes(parsed, key) ==> #[trigger] surface_only_io::reads(parsed, key),
    ensures
        !surface_only_io::fires(parsed, cfg),
{
    assert forall|key: Seq<char>| !#[trigger] surface_only_io::surface_only(parsed, key) by {
        if surface_only_io::writes(parsed, key) {
            assert(surface_only_io::reads(parsed, key));
        }
    }
}

} // verus!
