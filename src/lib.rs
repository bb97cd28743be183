//! Run a trusted computation and a candidate replacement side by side,
//! decide per run which of them executes, and reconcile their outputs when
//! both ran and disagree.

pub mod experiment;
pub mod mismatch;
pub mod rollout;

pub use experiment::{
    outcome, reconcile, reconcile_result, Experiment, Outcome, Reconciled, Run, Side,
};
pub use mismatch::{AlwaysControl, FnTrait, Mismatch, MismatchHandler};
pub use rollout::{Percent, RolloutDecision, RolloutStrategy};
