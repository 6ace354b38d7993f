//! `Finding` — the per-test record carrying every smell detected on it.

use vstd::prelude::*;

use crate::domain::smell::Smell;
use crate::domain::types::TestIdentity;

verus! {

/// Sum of the penalties of `smells`.
pub open spec fn total_penalty(smells: Seq<Smell>) -> nat
    decreases smells.len(),
{
    if smells.len() == 0 {
        0
    } else {
        total_penalty(smells.drop_last()) + smells.last().penalty as nat
    }
}

/// The penalty sum never exceeds the number of smells times `u32::MAX`.
pub proof fn lemma_total_penalty_bound(smells: Seq<Smell>)
    ensures
        total_penalty(smells) <= smells.len() * (u32::MAX as nat),
    decreases smells.len(),
{
    if smells.len() > 0 {
        lemma_total_penalty_bound(smells.drop_last());
    }
}

/// Computes [`total_penalty`].
pub fn penalty_sum(smells: &Vec<Smell>) -> (r: u128)
    ensures
        r == total_penalty(smells@),
{
    let mut score: u128 = 0;
    let mut i: usize = 0;
    assert(smells@.take(0) =~= Seq::<Smell>::empty());
    while i < smells.len()
        invariant
            i <= smells@.len(),
            score == total_penalty(smells@.take(i as int)),
            score <= i * (u32::MAX as nat),
            smells@.len() == smells.len(),
        decreases smells@.len() - i,
    {
        assert(smells@.take(i + 1).drop_last() =~= smells@.take(i as int));
        score = score + smells[i].penalty as u128;
        i = i + 1;
    }
    assert(smells@.take(smells@.len() as int) =~= smells@);
    score
}

/// One test together with the smells detected on it.
#[derive(Debug, PartialEq)]
pub struct Finding {
    /// The test the smells were detected on.
    pub test: TestIdentity,
    /// Detected smells, one per detection.
    pub smells: Vec<Smell>,
    /// Sum of the smells' penalties.
    pub scrap_score: u128,
    /// Whether the score exceeds the active threshold; set by the
    /// analysis pipeline, never by construction.
    pub exceeds_threshold: bool,
}

impl Clone for Finding {
    fn clone(&self) -> (r: Self)
        ensures
            r.test == self.test,
            r.smells@ == self.smells@,
            r.scrap_score == self.scrap_score,
            r.exceeds_threshold == self.exceeds_threshold,
    {
        let smells = self.smells.clone();
        assert forall|i: int| 0 <= i < smells@.len() implies smells@[i] == self.smells@[i] by {
            assert(cloned(self.smells[i], smells[i]));
        }
        assert(smells@ =~= self.smells@);
        Finding {
            test: self.test.clone(),
            smells,
            scrap_score: self.scrap_score,
            exceeds_threshold: self.exceeds_threshold,
        }
    }
}

impl Finding {
    /// Build a finding whose score is the sum of the smells' penalties.
    pub fn new(test: TestIdentity, smells: Vec<Smell>) -> (f: Self)
        ensures
            f.test == test,
            f.smells == smells,
            f.scrap_score == total_penalty(smells@),
            !f.exceeds_threshold,
    {
        let score = penalty_sum(&smells);
        Finding { test, smells, scrap_score: score, exceeds_threshold: false }
    }
}

} // verus!
