//! The aggregation of a whole run: iteration after iteration is folded into
//! a running maximum and a running total, from which the report is made once
//! the configured number of iterations has been recorded.

use vstd::prelude::*;
use crate::config::{Config, ConfigView};
use crate::error::RunError;
use crate::iteration::{all_completed, is_first_failure, latencies, run_iteration, TaskOutcome};
use crate::samples::{average, lemma_maximum_concat, lemma_sum_concat, maximum, sum};
use crate::span::{Span, MAX_SPAN_NANOS};

verus! {

/// What a finished run reports.
#[derive(Clone, Copy, Debug, PartialEq, Eq, Structural)]
pub struct Report {
    /// The largest latency of any task in any iteration.
    pub max_latency: Span,
    /// The total latency divided by the number of samples, rounded down to
    /// a whole nanosecond.
    pub average_latency: Span,
    /// The sum of the latencies of all tasks in all iterations.
    pub total_latency: Span,
    /// The number of samples: one per task and iteration.
    pub sample_count: u128,
}

impl Report {
    /// Whether the report states the maximum, the total, the number and the
    /// average of exactly these samples.
    pub open spec fn describes(self, samples: Seq<nat>) -> bool {
        &&& self.max_latency@ == maximum(samples)
        &&& self.total_latency@ == sum(samples)
        &&& self.sample_count == samples.len()
        &&& self.average_latency@ == average(samples)
    }
}

/// What the driver of a run has to do next.
#[derive(Clone, Copy, Debug, PartialEq, Eq, Structural)]
pub enum Step {
    /// Run one more iteration: start `thread_count` sleeper tasks, each
    /// asked to sleep for `sleep_duration`, wait for all of them, and hand
    /// their outcomes to [`Aggregator::record`].
    Measure { thread_count: usize, sleep_duration: Span },
    /// Every iteration has been recorded; this is the result of the run.
    Finished(Report),
}

/// The state of a run as plain values: its configuration, the number of
/// iterations recorded, and every latency sample recorded, in the order of
/// iterations and, within an iteration, of tasks.
pub struct AggregatorView {
    pub config: ConfigView,
    pub iterations_done: nat,
    pub samples: Seq<nat>,
}

impl AggregatorView {
    /// Whether the outcomes of one more iteration can be folded in: the run
    /// is not complete, there is one outcome per thread, every task
    /// completed, and the total stays representable.
    pub open spec fn accepts(self, outcomes: Seq<TaskOutcome>) -> bool {
        &&& self.iterations_done < self.config.iterations
        &&& outcomes.len() == self.config.thread_count
        &&& all_completed(outcomes)
        &&& sum(self.samples + latencies(outcomes, self.config.sleep_duration)) <= MAX_SPAN_NANOS
    }

    /// Whether `error` is the reason for which these outcomes cannot be
    /// folded in. The reasons are tried in the order in which they are
    /// listed, and the first that applies is the error.
    pub open spec fn rejects(self, outcomes: Seq<TaskOutcome>, error: RunError) -> bool {
        match error {
            RunError::AlreadyComplete => self.iterations_done >= self.config.iterations,
            RunError::WrongSampleCount { expected, found } => {
                &&& self.iterations_done < self.config.iterations
                &&& outcomes.len() != self.config.thread_count
                &&& expected == self.config.thread_count
                &&& found == outcomes.len()
            },
            RunError::TaskFailed { task } => {
                &&& self.iterations_done < self.config.iterations
                &&& outcomes.len() == self.config.thread_count
                &&& is_first_failure(outcomes, task as int)
            },
            RunError::Overflow => {
                &&& self.iterations_done < self.config.iterations
                &&& outcomes.len() == self.config.thread_count
                &&& all_completed(outcomes)
                &&& sum(self.samples + latencies(outcomes, self.config.sleep_duration))
                    > MAX_SPAN_NANOS
            },
            RunError::WrongIterationCount { .. } => false,
        }
    }

    /// The state after one more iteration with these outcomes.
    pub open spec fn with_iteration(self, outcomes: Seq<TaskOutcome>) -> AggregatorView {
        AggregatorView {
            config: self.config,
            iterations_done: self.iterations_done + 1,
            samples: self.samples + latencies(outcomes, self.config.sleep_duration),
        }
    }
}

/// Folding in one more iteration adds the iteration's total to the running
/// total, keeps the larger of the running maximum and the iteration's
/// maximum, and adds one sample per outcome.
pub proof fn lemma_fold(state: AggregatorView, outcomes: Seq<TaskOutcome>)
    ensures
        sum(state.with_iteration(outcomes).samples) == sum(state.samples) + sum(
            latencies(outcomes, state.config.sleep_duration),
        ),
        maximum(state.with_iteration(outcomes).samples) == if maximum(state.samples) >= maximum(
            latencies(outcomes, state.config.sleep_duration),
        ) {
            maximum(state.samples)
        } else {
            maximum(latencies(outcomes, state.config.sleep_duration))
        },
        state.with_iteration(outcomes).samples.len() == state.samples.len() + outcomes.len(),
{
    lemma_sum_concat(state.samples, latencies(outcomes, state.config.sleep_duration));
    lemma_maximum_concat(state.samples, latencies(outcomes, state.config.sleep_duration));
}

/// The running maximum and total of a run.
///
/// The aggregator is the only holder of the run's state. It is handed the
/// outcomes of one iteration at a time, strictly one after the other, and
/// at every moment its maximum is the largest and its total the sum of all
/// samples recorded so far.
pub struct Aggregator {
    config: Config,
    iterations_done: usize,
    max_latency: Span,
    total_latency: Span,
    samples: Ghost<Seq<nat>>,
}

impl View for Aggregator {
    type V = AggregatorView;

    closed spec fn view(&self) -> AggregatorView {
        AggregatorView {
            config: self.config@,
            iterations_done: self.iterations_done as nat,
            samples: self.samples@,
        }
    }
}

impl Aggregator {
    #[verifier::type_invariant]
    spec fn consistent(self) -> bool {
        &&& self.iterations_done <= self.config@.iterations
        &&& self.samples@.len() == self.iterations_done * self.config@.thread_count
        &&& self.max_latency@ == maximum(self.samples@)
        &&& self.total_latency@ == sum(self.samples@)
    }

    /// A run of `config` of which no iteration has been recorded yet.
    pub fn new(config: Config) -> (aggregator: Aggregator)
        ensures
            aggregator@.config == config@,
            aggregator@.iterations_done == 0,
            aggregator@.samples == Seq::<nat>::empty(),
    {
        Aggregator {
            config,
            iterations_done: 0,
            max_latency: Span::zero(),
            total_latency: Span::zero(),
            samples: Ghost(Seq::empty()),
        }
    }

    /// The configuration of the run.
    pub fn config(&self) -> (config: Config)
        ensures
            config@ == self@.config,
    {
        self.config
    }

    /// The number of iterations recorded so far; never more than
    /// configured, and with one sample per thread each.
    pub fn iterations_done(&self) -> (done: usize)
        ensures
            done == self@.iterations_done,
            done <= self@.config.iterations,
            self@.samples.len() == done * self@.config.thread_count,
    {
        proof {
            use_type_invariant(self);
        }
        self.iterations_done
    }

    /// The largest of all samples recorded so far; zero before the first.
    pub fn max_latency(&self) -> (latency: Span)
        ensures
            latency@ == maximum(self@.samples),
    {
        proof {
            use_type_invariant(self);
        }
        self.max_latency
    }

    /// The sum of all samples recorded so far.
    pub fn total_latency(&self) -> (latency: Span)
        ensures
            latency@ == sum(self@.samples),
    {
        proof {
            use_type_invariant(self);
        }
        self.total_latency
    }

    /// Folds the outcomes of one more iteration into the run.
    ///
    /// On success the iteration's samples are appended to those recorded.
    /// On failure nothing is recorded and the run is left as it was.
    pub fn record(&mut self, outcomes: &Vec<TaskOutcome>) -> (result: Result<(), RunError>)
        ensures
            match result {
                Ok(()) => {
                    &&& old(self)@.accepts(outcomes@)
                    &&& final(self)@ == old(self)@.with_iteration(outcomes@)
                },
                Err(error) => {
                    &&& old(self)@.rejects(outcomes@, error)
                    &&& final(self)@ == old(self)@
                },
            },
    {
        proof {
            use_type_invariant(&*self);
        }
        let threads = self.config.thread_count();
        let iterations = self.config.iterations();
        if self.iterations_done >= iterations {
            return Err(RunError::AlreadyComplete);
        }
        let ghost before = self.samples@;
        let ghost fresh = latencies(outcomes@, self.config@.sleep_duration);
        proof {
            lemma_fold(self@, outcomes@);
        }
        let iteration = match run_iteration(threads, self.config.sleep_duration(), outcomes) {
            Ok(iteration) => iteration,
            Err(error) => {
                return Err(error);
            },
        };
        let total_latency = match self.total_latency.checked_add(&iteration.total_latency) {
            Some(total) => total,
            None => {
                return Err(RunError::Overflow);
            },
        };
        let max_latency = if iteration.max_latency.exceeds(&self.max_latency) {
            iteration.max_latency
        } else {
            self.max_latency
        };
        proof {
            assert((self.iterations_done + 1) * threads == self.iterations_done * threads
                + threads) by (nonlinear_arith);
        }
        *self = Aggregator {
            config: self.config,
            iterations_done: self.iterations_done + 1,
            max_latency,
            total_latency,
            samples: Ghost(before + fresh),
        };
        Ok(())
    }

    /// The report of the run, once every configured iteration has been
    /// recorded; `None` before that.
    ///
    /// The average is taken once, over the grand total of all samples, so
    /// no rounding of one iteration carries over into the next.
    pub fn report(&self) -> (report: Option<Report>)
        ensures
            match report {
                Some(r) => {
                    &&& self@.iterations_done == self@.config.iterations
                    &&& self@.samples.len() == self@.config.sample_count()
                    &&& r.describes(self@.samples)
                    &&& r.average_latency@ <= r.max_latency@
                },
                None => self@.iterations_done < self@.config.iterations,
            },
    {
        proof {
            use_type_invariant(self);
        }
        if self.iterations_done < self.config.iterations() {
            return None;
        }
        let sample_count = self.config.sample_count();
        proof {
            assert(self.iterations_done * self.config@.thread_count == self.config@.thread_count
                * self.iterations_done) by (nonlinear_arith);
            crate::samples::lemma_average_at_most_maximum(self.samples@);
        }
        let average_latency = self.total_latency.checked_div(sample_count).unwrap();
        Some(
            Report {
                max_latency: self.max_latency,
                average_latency,
                total_latency: self.total_latency,
                sample_count,
            },
        )
    }

    /// What the driver has to do next: measure one more iteration while
    /// fewer than configured have been recorded, and take the report after
    /// that.
    pub fn next_step(&self) -> (step: Step)
        ensures
            match step {
                Step::Measure { thread_count, sleep_duration } => {
                    &&& self@.iterations_done < self@.config.iterations
                    &&& thread_count == self@.config.thread_count
                    &&& sleep_duration@ == self@.config.sleep_duration
                },
                Step::Finished(r) => {
                    &&& self@.iterations_done == self@.config.iterations
                    &&& self@.samples.len() == self@.config.sample_count()
                    &&& r.describes(self@.samples)
                    &&& r.average_latency@ <= r.max_latency@
                },
            },
    {
        match self.report() {
            Some(report) => Step::Finished(report),
            None => Step::Measure {
                thread_count: self.config.thread_count(),
                sleep_duration: self.config.sleep_duration(),
            },
        }
    }
}

} // verus!
