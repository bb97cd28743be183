use std::future::Future;

use thesis::{
    reconcile, reconcile_result, Experiment, MismatchHandler, Percent, RolloutDecision,
    RolloutStrategy, Run,
};

fn block_on<F: Future>(future: F) -> F::Output {
    tokio::runtime::Builder::new_current_thread()
        .build()
        .unwrap()
        .block_on(future)
}

async fn run<T, C, E, R, M>(experiment: Experiment<T, C, E, R, M>) -> T
where
    T: PartialEq,
    C: Future<Output = T>,
    E: Future<Output = T>,
    R: RolloutStrategy,
    M: MismatchHandler<T>,
{
    match experiment.decide() {
        Run::Control { control, .. } => control.await,
        Run::Experimental { experimental, .. } => experimental.await,
        Run::Compare {
            control,
            experimental,
            mismatch_handler,
            ..
        } => {
            let control = control.await;
            let experimental = experimental.await;
            reconcile(mismatch_handler, control, experimental).value
        }
    }
}

async fn run_result<T, X, C, E, R, M>(experiment: Experiment<Result<T, X>, C, E, R, M>) -> Result<T, X>
where
    T: PartialEq,
    C: Future<Output = Result<T, X>>,
    E: Future<Output = Result<T, X>>,
    R: RolloutStrategy,
    M: MismatchHandler<Result<T, X>>,
{
    match experiment.decide() {
        Run::Control { control, .. } => control.await,
        Run::Experimental { experimental, .. } => experimental.await,
        Run::Compare {
            control,
            experimental,
            mismatch_handler,
            ..
        } => {
            let control = control.await;
            let experimental = experimental.await;
            reconcile_result(mismatch_handler, control, experimental).value
        }
    }
}

fn is_send(_: impl Send) {}

#[derive(Debug)]
struct NonPartialEq;

#[test]
fn it_resolves_conflict_with_mismatch() {
    let mut experimental = true;

    let exists = block_on(run(Experiment::new("test")
        .control(async { true })
        .experimental(async {
            experimental = !experimental;
            experimental
        })
        .rollout_strategy(Percent::new(50))
        .on_mismatch(|mismatch| {
            assert!(mismatch.control);
            assert!(!mismatch.experimental);

            mismatch.control
        })));

    assert!(exists);
}

#[test]
fn it_rolls_out_correctly() {
    let mut trues = 0;
    let mut falses = 0;

    for _ in 0..10_000usize {
        let exists = block_on(run(Experiment::new("test")
            .control(async { true })
            .experimental(async { false })
            .rollout_strategy(Percent::new(5))
            .on_mismatch(|mismatch| mismatch.experimental)));

        if exists {
            trues += 1;
        } else {
            falses += 1;
        }
    }

    let experimental_rate = falses as f64 / (trues + falses) as f64;

    assert!(
        0.04 < experimental_rate && experimental_rate < 0.07,
        "rate of experimental was {}",
        experimental_rate
    );
}

#[test]
fn it_works_with_results() {
    let exists = block_on(run_result(Experiment::new("test")
        .control(async { Ok::<_, &str>(true) })
        .experimental(async { Ok::<_, &str>(false) })
        .rollout_strategy(RolloutDecision::UseControl)));

    assert_eq!(exists, Ok(true));
}

#[test]
fn test_experiment_is_send() {
    is_send(
        Experiment::new("test")
            .rollout_strategy(RolloutDecision::UseControl)
            .control(async {}),
    );
}

#[test]
fn it_falls_back_to_control_when_experimental_fails() {
    let mut seen = false;
    let exists = block_on(run_result(Experiment::new("test")
        .control(async { Ok::<_, &str>(true) })
        .experimental(async {
            seen = true;
            Err::<bool, &str>("failed")
        })
        .rollout_strategy(RolloutDecision::UseExperimentalAndCompare)));

    assert_eq!(exists, Ok(true));
    assert!(seen);
}

#[test]
fn it_calls_mismatch_when_control_errs_and_experiment_is_ok() {
    let mut seen = false;
    let exists = block_on(run_result(Experiment::new("test")
        .control(async { Err::<bool, &str>("failed") })
        .experimental(async { Ok::<_, &str>(true) })
        .rollout_strategy(RolloutDecision::UseExperimentalAndCompare)
        .on_mismatch(|m| {
            seen = true;

            m.experimental
        })));

    assert_eq!(exists, Ok(true));
    assert!(seen);
}

#[test]
fn it_works_with_non_partialeq_errs() {
    let mut seen = false;
    let exists = block_on(run_result(Experiment::new("test")
        .control(async { Err::<bool, NonPartialEq>(NonPartialEq) })
        .experimental(async { Ok::<_, NonPartialEq>(true) })
        .rollout_strategy(RolloutDecision::UseExperimentalAndCompare)
        .on_mismatch(|m| {
            seen = true;

            m.experimental
        })));

    match exists {
        Ok(true) => {}
        x => panic!("Unexpected result: {:?}", x),
    }

    assert!(seen);
}

#[test]
fn it_runs_experimental_result_and_ignores_control() {
    let mut seen = false;
    let exists = block_on(run_result(Experiment::new("test")
        .control(async {
            seen = true;
            Err::<bool, &str>("failed")
        })
        .experimental(async { Ok::<_, &str>(true) })
        .rollout_strategy(RolloutDecision::UseExperimental)));

    assert_eq!(exists, Ok(true));
    assert!(!seen);
}

#[test]
fn it_runs_experimental_and_ignores_control() {
    let mut seen = false;
    let exists = block_on(run(Experiment::new("test")
        .control(async {
            seen = true;
            false
        })
        .experimental(async { true })
        .rollout_strategy(RolloutDecision::UseExperimental)));

    assert!(exists);
    assert!(!seen);
}
