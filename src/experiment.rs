//! An experiment: its configuration, the per-run decision of what executes,
//! and the reconciliation of the outputs of a compared run.

use std::marker::PhantomData;
use vstd::prelude::*;
use vstd::std_specs::cmp::PartialEqSpec;

use crate::mismatch::{AlwaysControl, FnTrait, Mismatch, MismatchHandler};
use crate::rollout::{RolloutDecision, RolloutStrategy};

verus! {

/// An individual experiment over outputs of type `T`: a control computation
/// `C`, an experimental computation `E`, a rollout strategy `R` and a
/// mismatch policy `M`. The computations are held unstarted; a run starts
/// only those that its decision selects.
pub struct Experiment<T, C, E, R, M> {
    result_type: PhantomData<T>,
    control_builder: C,
    experimental_builder: E,
    rollout_strategy: R,
    mismatch_handler: M,
    name: &'static str,
}

/// What a run executes once its decision is made. Each variant holds only
/// the computations that the run starts; the others are dropped unstarted.
pub enum Run<C, E, M> {
    /// Run the control computation alone.
    Control { name: &'static str, control: C },
    /// Run the experimental computation alone.
    Experimental { name: &'static str, experimental: E },
    /// Run both to completion, then reconcile their outputs with the policy.
    Compare { name: &'static str, control: C, experimental: E, mismatch_handler: M },
}

impl<C, E, M> Run<C, E, M> {
    /// The decision that this run carries out.
    pub open spec fn decision(&self) -> RolloutDecision {
        match self {
            Run::Control { .. } => RolloutDecision::UseControl,
            Run::Experimental { .. } => RolloutDecision::UseExperimental,
            Run::Compare { .. } => RolloutDecision::UseExperimentalAndCompare,
        }
    }

    /// The decision that this run carries out.
    pub fn selected(&self) -> (r: RolloutDecision)
        ensures
            r == self.decision(),
    {
        match self {
            Run::Control { .. } => RolloutDecision::UseControl,
            Run::Experimental { .. } => RolloutDecision::UseExperimental,
            Run::Compare { .. } => RolloutDecision::UseExperimentalAndCompare,
        }
    }
}

impl<T> Experiment<T, (), (), (), AlwaysControl> {
    /// A new experiment named `name`, for observability only. The control and
    /// experimental computations and the rollout strategy are still to be
    /// given; a mismatch keeps the control output until `on_mismatch` says
    /// otherwise.
    pub fn new(name: &'static str) -> (r: Self)
        ensures
            r.name_of() == name,
            r.control_of() == (),
            r.experimental_of() == (),
            r.strategy_of() == (),
            r.handler_of() == AlwaysControl,
    {
        Experiment {
            name,
            result_type: PhantomData,
            control_builder: (),
            experimental_builder: (),
            mismatch_handler: AlwaysControl,
            rollout_strategy: (),
        }
    }
}

impl<T, C, E, R, M> Experiment<T, C, E, R, M> {
    /// The name of the experiment.
    pub closed spec fn name_of(&self) -> &'static str {
        self.name
    }

    /// The control computation.
    pub closed spec fn control_of(&self) -> C {
        self.control_builder
    }

    /// The experimental computation.
    pub closed spec fn experimental_of(&self) -> E {
        self.experimental_builder
    }

    /// The rollout strategy.
    pub closed spec fn strategy_of(&self) -> R {
        self.rollout_strategy
    }

    /// The mismatch policy.
    pub closed spec fn handler_of(&self) -> M {
        self.mismatch_handler
    }

    /// The name of the experiment, the tag of everything it records.
    pub fn name(&self) -> (r: &'static str)
        ensures
            r == self.name_of(),
    {
        self.name
    }

    /// What a run of this experiment executes under `decision`.
    pub open spec fn plan(&self, decision: RolloutDecision) -> Run<C, E, M> {
        match decision {
            RolloutDecision::UseControl => Run::Control {
                name: self.name_of(),
                control: self.control_of(),
            },
            RolloutDecision::UseExperimental => Run::Experimental {
                name: self.name_of(),
                experimental: self.experimental_of(),
            },
            RolloutDecision::UseExperimentalAndCompare => Run::Compare {
                name: self.name_of(),
                control: self.control_of(),
                experimental: self.experimental_of(),
                mismatch_handler: self.handler_of(),
            },
        }
    }

    /// Use `control_builder` as the control computation, the trusted way of
    /// producing the output.
    pub fn control<NC>(self, control_builder: NC) -> (r: Experiment<T, NC, E, R, M>) where
        NC: std::future::Future<Output = T>,

        ensures
            r.name_of() == self.name_of(),
            r.control_of() == control_builder,
            r.experimental_of() == self.experimental_of(),
            r.strategy_of() == self.strategy_of(),
            r.handler_of() == self.handler_of(),
    {
        Experiment {
            control_builder,
            name: self.name,
            experimental_builder: self.experimental_builder,
            result_type: self.result_type,
            rollout_strategy: self.rollout_strategy,
            mismatch_handler: self.mismatch_handler,
        }
    }

    /// Use `experimental_builder` as the experimental computation, the new way
    /// of producing the output.
    pub fn experimental<NE>(self, experimental_builder: NE) -> (r: Experiment<T, C, NE, R, M>) where
        NE: std::future::Future<Output = T>,

        ensures
            r.name_of() == self.name_of(),
            r.control_of() == self.control_of(),
            r.experimental_of() == experimental_builder,
            r.strategy_of() == self.strategy_of(),
            r.handler_of() == self.handler_of(),
    {
        Experiment {
            experimental_builder,
            name: self.name,
            result_type: self.result_type,
            control_builder: self.control_builder,
            rollout_strategy: self.rollout_strategy,
            mismatch_handler: self.mismatch_handler,
        }
    }

    /// Use `rollout_strategy` to decide what each run executes.
    pub fn rollout_strategy<NR>(self, rollout_strategy: NR) -> (r: Experiment<T, C, E, NR, M>)
        ensures
            r.name_of() == self.name_of(),
            r.control_of() == self.control_of(),
            r.experimental_of() == self.experimental_of(),
            r.strategy_of() == rollout_strategy,
            r.handler_of() == self.handler_of(),
    {
        Experiment {
            rollout_strategy,
            name: self.name,
            result_type: self.result_type,
            control_builder: self.control_builder,
            experimental_builder: self.experimental_builder,
            mismatch_handler: self.mismatch_handler,
        }
    }

    /// Reconcile a disagreement of a compared run by calling `on_mismatch`
    /// with both outputs. This only happens when the rollout strategy decides
    /// `RolloutDecision::UseExperimentalAndCompare`.
    pub fn on_mismatch<NM>(self, on_mismatch: NM) -> (r: Experiment<T, C, E, R, FnTrait<NM>>) where
        NM: FnOnce(Mismatch<T>) -> T,

        ensures
            r.name_of() == self.name_of(),
            r.control_of() == self.control_of(),
            r.experimental_of() == self.experimental_of(),
            r.strategy_of() == self.strategy_of(),
            r.handler_of() == FnTrait(on_mismatch),
    {
        Experiment {
            mismatch_handler: FnTrait(on_mismatch),
            name: self.name,
            rollout_strategy: self.rollout_strategy,
            result_type: self.result_type,
            control_builder: self.control_builder,
            experimental_builder: self.experimental_builder,
        }
    }

    /// Query the rollout strategy once and keep what the run executes. The
    /// computation that the decision leaves out is dropped without starting.
    pub fn decide(self) -> (r: Run<C, E, M>) where
        R: RolloutStrategy,
        C: std::future::Future<Output = T>,
        E: std::future::Future<Output = T>,

        ensures
            self.strategy_of().may_decide(r.decision()),
            r == self.plan(r.decision()),
    {
        let decision = self.rollout_strategy.rollout_decision();
        match decision {
            RolloutDecision::UseControl => Run::Control {
                name: self.name,
                control: self.control_builder,
            },
            RolloutDecision::UseExperimental => Run::Experimental {
                name: self.name,
                experimental: self.experimental_builder,
            },
            RolloutDecision::UseExperimentalAndCompare => Run::Compare {
                name: self.name,
                control: self.control_builder,
                experimental: self.experimental_builder,
                mismatch_handler: self.mismatch_handler,
            },
        }
    }
}

/// The single output of a compared run, and whether the run is counted as a
/// mismatch.
#[derive(Clone, Copy, Debug)]
pub struct Reconciled<T> {
    /// The output handed to the caller.
    pub value: T,
    /// Whether the two computations disagreed.
    pub mismatch: bool,
}

/// Reconcile the outputs of a compared run: equal outputs give the control
/// output; unequal ones are handed, both of them, to the mismatch policy
/// once, and its answer is the output.
pub fn reconcile<T: PartialEq, M: MismatchHandler<T>>(
    mismatch_handler: M,
    control: T,
    experimental: T,
) -> (r: Reconciled<T>)
    requires
        !(T::obeys_eq_spec() && control.eq_spec(&experimental)) ==> mismatch_handler.accepts(
            Mismatch { control, experimental },
        ),
    ensures
        T::obeys_eq_spec() ==> (r.mismatch <==> !control.eq_spec(&experimental)),
        !r.mismatch ==> r.value == control,
        r.mismatch ==> mismatch_handler.resolves(Mismatch { control, experimental }, r.value),
{
    if control != experimental {
        let value = mismatch_handler.on_mismatch(Mismatch { control, experimental });
        Reconciled { value, mismatch: true }
    } else {
        Reconciled { value: control, mismatch: false }
    }
}

/// Reconcile the outcomes of a compared run of fallible computations.
/// Two equal successes give the control success. Two unequal successes, or a
/// control failure beside an experimental success, go to the mismatch policy,
/// whose answer, success or failure, is the output. A control success beside
/// an experimental failure keeps the control success without calling the
/// policy, and still counts as a mismatch. Two failures give the control
/// failure.
pub fn reconcile_result<T: PartialEq, X, M: MismatchHandler<Result<T, X>>>(
    mismatch_handler: M,
    control: Result<T, X>,
    experimental: Result<T, X>,
) -> (r: Reconciled<Result<T, X>>)
    requires
        match (control, experimental) {
            (Ok(a), Ok(b)) => !(T::obeys_eq_spec() && a.eq_spec(&b))
                ==> mismatch_handler.accepts(Mismatch { control, experimental }),
            (Err(_), Ok(_)) => mismatch_handler.accepts(Mismatch { control, experimental }),
            _ => true,
        },
    ensures
        match (control, experimental) {
            (Ok(a), Ok(b)) => {
                &&& T::obeys_eq_spec() ==> (r.mismatch <==> !a.eq_spec(&b))
                &&& !r.mismatch ==> r.value == control
                &&& r.mismatch ==> mismatch_handler.resolves(
                    Mismatch { control, experimental },
                    r.value,
                )
            },
            (Ok(_), Err(_)) => r.mismatch && r.value == control,
            (Err(_), Ok(_)) => r.mismatch && mismatch_handler.resolves(
                Mismatch { control, experimental },
                r.value,
            ),
            (Err(_), Err(_)) => !r.mismatch && r.value == control,
        },
{
    match (control, experimental) {
        (Ok(c), Ok(e)) => {
            if c != e {
                let value = mismatch_handler.on_mismatch(
                    Mismatch { control: Ok(c), experimental: Ok(e) },
                );
                Reconciled { value, mismatch: true }
            } else {
                Reconciled { value: Ok(c), mismatch: false }
            }
        },
        (Ok(c), Err(_)) => Reconciled { value: Ok(c), mismatch: true },
        (Err(c), Ok(e)) => {
            let value = mismatch_handler.on_mismatch(
                Mismatch { control: Err(c), experimental: Ok(e) },
            );
            Reconciled { value, mismatch: true }
        },
        (Err(c), Err(_)) => Reconciled { value: Err(c), mismatch: false },
    }
}

/// One of the two computations of an experiment.
#[derive(Clone, Copy, Debug, PartialEq, Eq, Structural)]
pub enum Side {
    Control,
    Experimental,
}

impl Side {
    /// The tag under which durations and outcomes of this side are recorded.
    pub fn label(&self) -> (r: &'static str)
        ensures
            *self == Side::Control ==> r@ == "control"@,
            *self == Side::Experimental ==> r@ == "experimental"@,
    {
        match self {
            Side::Control => "control",
            Side::Experimental => "experimental",
        }
    }
}

/// The classification of the outcome of a fallible computation.
#[derive(Clone, Copy, Debug, PartialEq, Eq, Structural)]
pub enum Outcome {
    Success,
    Failure,
}

impl Outcome {
    /// The tag under which this outcome is counted.
    pub fn label(&self) -> (r: &'static str)
        ensures
            *self == Outcome::Success ==> r@ == "ok"@,
            *self == Outcome::Failure ==> r@ == "error"@,
    {
        match self {
            Outcome::Success => "ok",
            Outcome::Failure => "error",
        }
    }
}

/// Classify the outcome of one side of a fallible run.
pub fn outcome<T, X>(result: &Result<T, X>) -> (r: Outcome)
    ensures
        r == (if result is Ok {
            Outcome::Success
        } else {
            Outcome::Failure
        }),
{
    match result {
        Ok(_) => Outcome::Success,
        Err(_) => Outcome::Failure,
    }
}

} // verus!
