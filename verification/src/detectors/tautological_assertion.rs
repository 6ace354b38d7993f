//! `tautological-assertion` detector: assertions whose form guarantees
//! they cannot fail (`assert!(true)`, `assert_eq!(x, x)`, literal against
//! the same literal).
//!
//! `assert!(false)` is deliberately not flagged: a deliberate failure is
//! informational, not a smell.

use vstd::prelude::*;

use super::{smells_match, SmellShape};
use crate::domain::classification::{Actionability, Severity};
use crate::domain::config::DetectorConfig;
use crate::domain::finding::{total_penalty, Finding};
use crate::domain::literal_value::LiteralValue;
use crate::domain::parsed::{ParsedAssertion, ParsedTest};
use crate::domain::smell::{Smell, SmellCategory};

verus! {

/// Penalty contribution per tautological-assertion smell.
pub const PENALTY: u32 = 10;

/// The tautology rule: the two compared arguments are token-identical,
/// or the single argument is the literal `true`.
pub open spec fn spec_is_tautological(a: ParsedAssertion) -> bool {
    a.arguments_identical || a.single_arg_value == Some(LiteralValue::Bool(true))
}

/// One smell per tautological assertion of `assertions`, in order, each
/// located at its assertion and carrying `penalty`.
pub open spec fn tautology_shapes(assertions: Seq<ParsedAssertion>, penalty: u32) -> Seq<
    SmellShape,
>
    decreases assertions.len(),
{
    if assertions.len() == 0 {
        Seq::empty()
    } else {
        let rest = tautology_shapes(assertions.drop_last(), penalty);
        let a = assertions.last();
        if spec_is_tautological(a) {
            rest.push(
                (
                    SmellCategory::TautologicalAssertion,
                    Severity::High,
                    Actionability::AutoRefactor,
                    penalty,
                    Some(a.span),
                ),
            )
        } else {
            rest
        }
    }
}

/// The tautology rule as a predicate over assertions.
pub open spec fn tautological_pred() -> spec_fn(ParsedAssertion) -> bool {
    |a: ParsedAssertion| spec_is_tautological(a)
}

/// The smell of the tautological assertion `a`, carrying `penalty`.
pub open spec fn tautology_shape(a: ParsedAssertion, penalty: u32) -> SmellShape {
    (SmellCategory::TautologicalAssertion, Severity::High, Actionability::AutoRefactor, penalty, Some(a.span))
}

/// Law: the detector flags exactly the assertions that the tautology rule
/// keeps, in their order, one smell each, located at its assertion.
pub proof fn lemma_tautologies_are_the_filtered_assertions(assertions: Seq<ParsedAssertion>, penalty: u32)
    ensures
        tautology_shapes(assertions, penalty) == assertions.filter(tautological_pred()).map_values(
            |a: ParsedAssertion| tautology_shape(a, penalty),
        ),
    decreases assertions.len(),
{
    reveal(Seq::filter);
    if assertions.len() > 0 {
        let init = assertions.drop_last();
        lemma_tautologies_are_the_filtered_assertions(init, penalty);
        let kept = init.filter(tautological_pred());
        if spec_is_tautological(assertions.last()) {
            assert(assertions.filter(tautological_pred()) == kept.push(assertions.last()));
            assert(kept.push(assertions.last()).map_values(|a: ParsedAssertion| tautology_shape(a, penalty))
                =~= kept.map_values(|a: ParsedAssertion| tautology_shape(a, penalty)).push(
                tautology_shape(assertions.last(), penalty),
            ));
        } else {
            assert(assertions.filter(tautological_pred()) == kept);
        }
    } else {
        assert(assertions.filter(tautological_pred()) =~= Seq::<ParsedAssertion>::empty());
        assert(Seq::<ParsedAssertion>::empty().map_values(|a: ParsedAssertion| tautology_shape(a, penalty))
            =~= Seq::<SmellShape>::empty());
    }
}

/// Penalty in effect under `cfg`.
pub open spec fn penalty(cfg: DetectorConfig) -> u32 {
    match cfg.penalty {
        Some(p) => p,
        None => PENALTY,
    }
}

/// The smells this detector contributes under `cfg`.
pub open spec fn expected(parsed: ParsedTest, cfg: DetectorConfig) -> Seq<SmellShape> {
    if cfg.enabled == Some(false) {
        Seq::empty()
    } else {
        tautology_shapes(parsed.assertions@, penalty(cfg))
    }
}

/// Number of tautological assertions among `assertions`.
pub open spec fn tautology_count(assertions: Seq<ParsedAssertion>) -> nat {
    tautology_shapes(assertions, PENALTY).len()
}

/// Every tautology shape carries the requested penalty.
pub proof fn lemma_tautology_shapes_penalty(assertions: Seq<ParsedAssertion>, penalty: u32)
    ensures
        forall|j: int|
            0 <= j < tautology_shapes(assertions, penalty).len() ==> (#[trigger] tautology_shapes(
                assertions,
                penalty,
            )[j]).3 == penalty,
    decreases assertions.len(),
{
    if assertions.len() > 0 {
        lemma_tautology_shapes_penalty(assertions.drop_last(), penalty);
        let rest = tautology_shapes(assertions.drop_last(), penalty);
        let all = tautology_shapes(assertions, penalty);
        assert forall|j: int| 0 <= j < all.len() implies (#[trigger] all[j]).3 == penalty by {
            if j < rest.len() {
                assert(all[j] == rest[j]);
            }
        }
    }
}

/// At most one tautology smell per assertion.
pub proof fn lemma_tautology_shapes_len(assertions: Seq<ParsedAssertion>, penalty: u32)
    ensures
        tautology_shapes(assertions, penalty).len() <= assertions.len(),
    decreases assertions.len(),
{
    if assertions.len() > 0 {
        lemma_tautology_shapes_len(assertions.drop_last(), penalty);
    }
}

/// Evaluates [`spec_is_tautological`].
fn is_tautological(a: &ParsedAssertion) -> (r: bool)
    ensures
        r == spec_is_tautological(*a),
{
    if a.arguments_identical {
        return true;
    }
    match &a.single_arg_value {
        Some(LiteralValue::Bool(b)) => *b,
        _ => false,
    }
}

/// Smells whose penalties all equal `p` sum to `p` times their number.
pub proof fn lemma_uniform_penalty_total(smells: Seq<Smell>, p: u32)
    requires
        forall|j: int| 0 <= j < smells.len() ==> (#[trigger] smells[j]).penalty == p,
    ensures
        total_penalty(smells) == smells.len() * (p as nat),
    decreases smells.len(),
{
    if smells.len() > 0 {
        let init = smells.drop_last();
        assert forall|j: int| 0 <= j < init.len() implies (#[trigger] init[j]).penalty == p by {
            assert(init[j] == smells[j]);
        }
        lemma_uniform_penalty_total(init, p);
        let n = smells.len() as int;
        assert((n - 1) * (p as int) + (p as int) == n * (p as int)) by (nonlinear_arith);
    }
}

/// The tautology smells of `parsed` with the given penalty, one per
/// tautological assertion, in assertion order.
pub fn tautology_smells(parsed: &ParsedTest, penalty: u32) -> (r: Vec<Smell>)
    ensures
        smells_match(r@, tautology_shapes(parsed.assertions@, penalty)),
{
    let mut out: Vec<Smell> = Vec::new();
    let mut i: usize = 0;
    assert(parsed.assertions@.take(0) =~= Seq::<ParsedAssertion>::empty());
    while i < parsed.assertions.len()
        invariant
            i <= parsed.assertions@.len(),
            smells_match(out@, tautology_shapes(parsed.assertions@.take(i as int), penalty)),
        decreases parsed.assertions@.len() - i,
    {
        let a = &parsed.assertions[i];
        assert(parsed.assertions@.take(i + 1).drop_last() =~= parsed.assertions@.take(i as int));
        assert(parsed.assertions@.take(i + 1).last() == *a);
        if is_tautological(a) {
            let s = Smell::new(
                SmellCategory::TautologicalAssertion,
                Severity::High,
                Actionability::AutoRefactor,
                penalty,
                Some(a.span),
            );
            out.push(s);
        }
        i = i + 1;
    }
    assert(parsed.assertions@.take(parsed.assertions@.len() as int) =~= parsed.assertions@);
    out
}

/// Detect tautological assertions on `parsed` with the default penalty:
/// one finding carrying one smell per tautological assertion (each at
/// its assertion's span), or `None` when no assertion is tautological.
/// Opt-outs and implicit-assertion sources are not consulted.
pub fn detect(parsed: &ParsedTest) -> (r: Option<Finding>)
    ensures
        r is Some <==> tautology_count(parsed.assertions@) > 0,
        r matches Some(f) ==> {
            &&& f.test == parsed.identity
            &&& smells_match(f.smells@, tautology_shapes(parsed.assertions@, PENALTY))
            &&& f.scrap_score == tautology_count(parsed.assertions@) * (PENALTY as nat)
            &&& !f.exceeds_threshold
        },
{
    let smells = tautology_smells(parsed, PENALTY);
    if smells.len() == 0 {
        return None;
    }
    let f = Finding::new(parsed.identity.clone(), smells);
    proof {
        lemma_tautology_shapes_penalty(parsed.assertions@, PENALTY);
        let shapes = tautology_shapes(parsed.assertions@, PENALTY);
        assert forall|j: int| 0 <= j < f.smells@.len() implies (#[trigger] f.smells@[j]).penalty
            == PENALTY by {
            assert(f.smells@[j].is_default(
                shapes[j].0,
                shapes[j].1,
                shapes[j].2,
                shapes[j].3,
                shapes[j].4,
            ));
        }
        lemma_uniform_penalty_total(f.smells@, PENALTY);
    }
    Some(f)
}

/// Detect under a resolved detector configuration: nothing when the
/// detector is disabled, otherwise the tautology smells with the
/// configured penalty (default [`PENALTY`]).
pub fn detect_configured(parsed: &ParsedTest, cfg: &DetectorConfig) -> (r: Vec<Smell>)
    ensures
        smells_match(r@, expected(*parsed, *cfg)),
{
    if cfg.enabled == Some(false) {
        return Vec::new();
    }
    let p = match cfg.penalty {
        Some(p) => p,
        None => PENALTY,
    };
    tautology_smells(parsed, p)
}

} // verus!
