//! A whole run over recorded measurements: every iteration's outcomes are
//! given up front and aggregated in order.

use vstd::prelude::*;
use crate::aggregate::{Aggregator, AggregatorView, Report};
use crate::config::{Config, ConfigView};
use crate::error::RunError;
use crate::iteration::{latencies, TaskOutcome};

verus! {

/// The latency samples of the first `upto` iterations of a recorded run, in
/// the order of iterations and, within an iteration, of tasks.
pub open spec fn recorded_latencies(
    measurements: Seq<Vec<TaskOutcome>>,
    requested: nat,
    upto: int,
) -> Seq<nat>
    decreases upto,
{
    if upto <= 0 {
        Seq::empty()
    } else {
        recorded_latencies(measurements, requested, upto - 1) + latencies(
            measurements[upto - 1]@,
            requested,
        )
    }
}

/// The state of a run of `config` after the first `done` recorded
/// iterations.
pub open spec fn state_after(
    config: ConfigView,
    measurements: Seq<Vec<TaskOutcome>>,
    done: int,
) -> AggregatorView {
    AggregatorView {
        config,
        iterations_done: done as nat,
        samples: recorded_latencies(measurements, config.sleep_duration, done),
    }
}

/// Whether iteration `k` of the recorded run can be folded in after those
/// before it.
pub open spec fn iteration_accepted(
    config: ConfigView,
    measurements: Seq<Vec<TaskOutcome>>,
    k: int,
) -> bool {
    state_after(config, measurements, k).accepts(measurements[k]@)
}

/// Whether `error` is the reason for which iteration `k` of the recorded
/// run cannot be folded in after those before it.
pub open spec fn iteration_rejected(
    config: ConfigView,
    measurements: Seq<Vec<TaskOutcome>>,
    k: int,
    error: RunError,
) -> bool {
    state_after(config, measurements, k).rejects(measurements[k]@, error)
}

/// Aggregates a recorded run: `measurements` holds, iteration by iteration,
/// the outcomes of the sleeper tasks.
///
/// The run yields a report only if it holds exactly the configured number
/// of iterations and every one of them can be folded in. The report then
/// states the maximum, the total and the average of all samples of all
/// iterations. Otherwise the run fails with the error of the first
/// iteration that cannot be folded in.
pub fn run_test(config: &Config, measurements: &Vec<Vec<TaskOutcome>>) -> (result: Result<
    Report,
    RunError,
>)
    ensures
        match result {
            Ok(report) => {
                &&& measurements.len() == config@.iterations
                &&& forall|k: int|
                    0 <= k < measurements.len() ==> iteration_accepted(config@, measurements@, k)
                &&& report.describes(
                    recorded_latencies(
                        measurements@,
                        config@.sleep_duration,
                        measurements.len() as int,
                    ),
                )
                &&& report.sample_count == config@.sample_count()
                &&& report.average_latency@ <= report.max_latency@
            },
            Err(RunError::WrongIterationCount { expected, found }) => {
                &&& measurements.len() != config@.iterations
                &&& expected == config@.iterations
                &&& found == measurements.len()
            },
            Err(error) => {
                &&& measurements.len() == config@.iterations
                &&& exists|k: int|
                    {
                        &&& 0 <= k < measurements.len()
                        &&& forall|j: int|
                            0 <= j < k ==> iteration_accepted(config@, measurements@, j)
                        &&& #[trigger] iteration_rejected(config@, measurements@, k, error)
                    }
            },
        },
{
    let iterations = config.iterations();
    if measurements.len() != iterations {
        return Err(RunError::WrongIterationCount { expected: iterations, found: measurements.len() });
    }
    let mut aggregator = Aggregator::new(*config);
    let mut k: usize = 0;
    while k < measurements.len()
        invariant
            k <= measurements.len(),
            measurements.len() == config@.iterations,
            aggregator@ == state_after(config@, measurements@, k as int),
            forall|j: int| 0 <= j < k ==> iteration_accepted(config@, measurements@, j),
        decreases measurements.len() - k,
    {
        match aggregator.record(&measurements[k]) {
            Ok(()) => {},
            Err(error) => {
                assert(iteration_rejected(config@, measurements@, k as int, error));
                return Err(error);
            },
        }
        assert(iteration_accepted(config@, measurements@, k as int));
        k += 1;
    }
    Ok(aggregator.report().unwrap())
}

} // verus!
