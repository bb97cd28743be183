//! The decision of which computation an experiment runs, and the strategies
//! that make it.

use vstd::arithmetic::div_mod::{lemma_mod_multiples_vanish, lemma_small_mod};
use vstd::prelude::*;

verus! {

/// Which of the two computations a single run of an experiment executes.
#[derive(Clone, Copy, Debug, PartialEq, Eq, Structural)]
pub enum RolloutDecision {
    /// Run only the control computation.
    UseControl,
    /// Run only the experimental computation.
    UseExperimental,
    /// Run both, compare their outputs and reconcile a disagreement.
    UseExperimentalAndCompare,
}

impl RolloutDecision {
    /// The tag under which the selected variant is counted.
    pub fn kind(&self) -> (r: &'static str)
        ensures
            *self == RolloutDecision::UseControl ==> r@ == "control"@,
            *self == RolloutDecision::UseExperimental ==> r@ == "experimental"@,
            *self == RolloutDecision::UseExperimentalAndCompare ==> r@
                == "experimental_and_compare"@,
    {
        match self {
            RolloutDecision::UseControl => "control",
            RolloutDecision::UseExperimental => "experimental",
            RolloutDecision::UseExperimentalAndCompare => "experimental_and_compare",
        }
    }
}

/// A source of rollout decisions, queried once per run of an experiment.
pub trait RolloutStrategy {
    /// Whether `decision` is one that this strategy may hand out.
    spec fn may_decide(&self, decision: RolloutDecision) -> bool;

    /// Decide which computation the current run executes.
    fn rollout_decision(&self) -> (decision: RolloutDecision)
        ensures
            self.may_decide(decision),
    ;
}

/// A fixed decision is a strategy that always decides the same way.
impl RolloutStrategy for RolloutDecision {
    open spec fn may_decide(&self, decision: RolloutDecision) -> bool {
        decision == *self
    }

    fn rollout_decision(&self) -> (decision: RolloutDecision) {
        *self
    }
}

/// The decision that a compare rate of `percent` gives for a uniform draw.
pub open spec fn sampled_decision(percent: u32, draw: u32) -> RolloutDecision {
    if draw % 100 < percent {
        RolloutDecision::UseExperimentalAndCompare
    } else {
        RolloutDecision::UseControl
    }
}

/// A strategy that compares on a given share of runs, picked at random, and
/// runs only the control computation on the others.
#[derive(Clone, Copy, Debug)]
pub struct Percent {
    percent: u32,
}

impl Percent {
    /// The share of runs, in percent, that run both computations.
    pub closed spec fn rate(&self) -> u32 {
        self.percent
    }

    /// A strategy that compares on `percent` percent of runs; any rate of a
    /// hundred or more compares on every run.
    pub fn new(percent: u32) -> (r: Self)
        ensures
            r.rate() == percent,
    {
        Percent { percent }
    }

    /// The decision for a uniformly drawn number `draw`: compare when it
    /// falls among the first `rate` of each hundred values.
    pub fn decide(&self, draw: u32) -> (decision: RolloutDecision)
        ensures
            decision == sampled_decision(self.rate(), draw),
    {
        if draw % 100 < self.percent {
            RolloutDecision::UseExperimentalAndCompare
        } else {
            RolloutDecision::UseControl
        }
    }
}

/// Relies on rand::rngs::OsRng through RngCore::try_fill_bytes: four bytes
/// from the operating system's generator, or nothing where the generator
/// fails, which it reports instead of panicking. Nothing is promised of which
/// number comes back.
#[verifier::external_body]
fn try_draw() -> (r: Option<u32>) {
    let mut bytes = [0u8; 4];
    match rand::RngCore::try_fill_bytes(&mut rand::rngs::OsRng, &mut bytes) {
        Ok(()) => Some(u32::from_le_bytes(bytes)),
        Err(_) => None,
    }
}

/// Draws a number at random; where no number can be drawn, the run falls
/// back to the control computation alone.
impl RolloutStrategy for Percent {
    open spec fn may_decide(&self, decision: RolloutDecision) -> bool {
        ||| decision == RolloutDecision::UseControl
        ||| exists|draw: u32| decision == sampled_decision(self.rate(), draw)
    }

    fn rollout_decision(&self) -> (decision: RolloutDecision) {
        match try_draw() {
            Some(draw) => self.decide(draw),
            None => RolloutDecision::UseControl,
        }
    }
}

/// How many of the draws `start`, `start + 1`, ..., `start + len - 1` compare
/// under a compare rate of `percent`.
pub open spec fn compared_draws(percent: u32, start: nat, len: nat) -> nat
    decreases len,
{
    if len == 0 {
        0
    } else {
        compared_draws(percent, start, (len - 1) as nat) + if sampled_decision(
            percent,
            (start + len - 1) as u32,
        ) == RolloutDecision::UseExperimentalAndCompare {
            1nat
        } else {
            0nat
        }
    }
}

/// A compare rate of `percent` compares on exactly `percent` of every hundred
/// consecutive draws that start at a multiple of a hundred (on all of them
/// for a rate of a hundred or more), so a uniform draw compares at that rate.
pub proof fn lemma_sampled_share(percent: u32, block: nat)
    requires
        100 * (block + 1) <= u32::MAX + 1,
    ensures
        compared_draws(percent, 100 * block, 100) == if percent < 100 {
            percent as nat
        } else {
            100nat
        },
{
    lemma_sampled_prefix(percent, block, 100);
}

proof fn lemma_sampled_prefix(percent: u32, block: nat, len: nat)
    requires
        len <= 100,
        100 * (block + 1) <= u32::MAX + 1,
    ensures
        compared_draws(percent, 100 * block, len) == if percent < len {
            percent as nat
        } else {
            len
        },
    decreases len,
{
    if len > 0 {
        lemma_sampled_prefix(percent, block, (len - 1) as nat);
        let i = (len - 1) as nat;
        lemma_mod_multiples_vanish(block as int, i as int, 100);
        lemma_small_mod(i, 100);
        assert((100 * block + i) as u32 % 100 == i);
    }
}

} // verus!
