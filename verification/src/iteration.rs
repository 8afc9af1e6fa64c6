//! One trial: the outcomes of all sleeper tasks of an iteration, reduced to
//! the largest and the total latency.

use vstd::prelude::*;
use crate::error::RunError;
use crate::samples::{maximum, sum};
use crate::span::{Span, MAX_SPAN_NANOS};

verus! {

/// How one sleeper task ended.
#[derive(Clone, Copy, Debug, PartialEq, Eq, Structural)]
pub enum TaskOutcome {
    /// The task slept and woke; the span is the time that passed between
    /// its start and its waking.
    Completed(Span),
    /// The task ended abnormally and measured nothing.
    Failed,
}

/// The largest and the total latency over the samples of one iteration.
#[derive(Clone, Copy, Debug, PartialEq, Eq, Structural)]
pub struct IterationResult {
    pub max_latency: Span,
    pub total_latency: Span,
}

/// The latency of a task that was asked to sleep for `requested` nanoseconds
/// and woke after `elapsed`: the excess of `elapsed` over `requested`. A
/// reading shorter than the request, which only a coarse timer can produce,
/// counts as no latency at all.
pub open spec fn latency(elapsed: nat, requested: nat) -> nat {
    if elapsed >= requested {
        (elapsed - requested) as nat
    } else {
        0
    }
}

/// The latency sample that an outcome stands for. A failed task has none;
/// it is given as zero so that every position has a value.
pub open spec fn outcome_latency(outcome: TaskOutcome, requested: nat) -> nat {
    match outcome {
        TaskOutcome::Completed(elapsed) => latency(elapsed@, requested),
        TaskOutcome::Failed => 0,
    }
}

/// The latency samples of an iteration, task by task.
pub open spec fn latencies(outcomes: Seq<TaskOutcome>, requested: nat) -> Seq<nat> {
    Seq::new(outcomes.len(), |i: int| outcome_latency(outcomes[i], requested))
}

/// Whether every task of the iteration completed.
pub open spec fn all_completed(outcomes: Seq<TaskOutcome>) -> bool {
    forall|i: int| 0 <= i < outcomes.len() ==> outcomes[i] is Completed
}

/// Whether `task` is the position of the first failed task.
pub open spec fn is_first_failure(outcomes: Seq<TaskOutcome>, task: int) -> bool {
    &&& 0 <= task < outcomes.len()
    &&& outcomes[task] is Failed
    &&& forall|i: int| 0 <= i < task ==> outcomes[i] is Completed
}

/// The latency of one task: the time it took to wake beyond the time it
/// asked to sleep, and zero where the reading falls short of the request.
pub fn latency_sample(elapsed: Span, requested: Span) -> (sample: Span)
    ensures
        sample@ == latency(elapsed@, requested@),
{
    elapsed.saturating_sub(&requested)
}

/// The position of the first failed task, if any task failed.
pub fn first_failure(outcomes: &Vec<TaskOutcome>) -> (found: Option<usize>)
    ensures
        match found {
            Some(task) => is_first_failure(outcomes@, task as int),
            None => all_completed(outcomes@),
        },
{
    let mut i: usize = 0;
    while i < outcomes.len()
        invariant
            i <= outcomes.len(),
            forall|j: int| 0 <= j < i ==> outcomes@[j] is Completed,
        decreases outcomes.len() - i,
    {
        match outcomes[i] {
            TaskOutcome::Failed => {
                return Some(i);
            },
            TaskOutcome::Completed(_) => {},
        }
        i += 1;
    }
    None
}

/// Reduces the outcomes of one iteration's sleeper tasks to the largest and
/// the total latency.
///
/// The iteration yields a result only if it holds one outcome per thread,
/// every task completed, and the total stays within the longest
/// representable span. A failed task is never replaced by a made-up sample:
/// the whole iteration fails, naming the first such task.
pub fn run_iteration(thread_count: usize, sleep_duration: Span, outcomes: &Vec<TaskOutcome>) -> (result:
    Result<IterationResult, RunError>)
    ensures
        match result {
            Ok(r) => {
                &&& outcomes.len() == thread_count
                &&& all_completed(outcomes@)
                &&& r.max_latency@ == maximum(latencies(outcomes@, sleep_duration@))
                &&& r.total_latency@ == sum(latencies(outcomes@, sleep_duration@))
                &&& r.total_latency@ <= MAX_SPAN_NANOS
            },
            Err(RunError::WrongSampleCount { expected, found }) => {
                &&& outcomes.len() != thread_count
                &&& expected == thread_count
                &&& found == outcomes.len()
            },
            Err(RunError::TaskFailed { task }) => {
                &&& outcomes.len() == thread_count
                &&& is_first_failure(outcomes@, task as int)
            },
            Err(RunError::Overflow) => {
                &&& outcomes.len() == thread_count
                &&& all_completed(outcomes@)
                &&& sum(latencies(outcomes@, sleep_duration@)) > MAX_SPAN_NANOS
            },
            Err(_) => false,
        },
{
    if outcomes.len() != thread_count {
        return Err(RunError::WrongSampleCount { expected: thread_count, found: outcomes.len() });
    }
    if let Some(task) = first_failure(outcomes) {
        return Err(RunError::TaskFailed { task });
    }
    let ghost all = latencies(outcomes@, sleep_duration@);
    let mut max_latency = Span::zero();
    let mut total_latency = Span::zero();
    let mut i: usize = 0;
    while i < outcomes.len()
        invariant
            i <= outcomes.len(),
            outcomes.len() == thread_count,
            all == latencies(outcomes@, sleep_duration@),
            all_completed(outcomes@),
            max_latency@ == maximum(all.take(i as int)),
            total_latency@ == sum(all.take(i as int)),
            total_latency@ <= MAX_SPAN_NANOS,
        decreases outcomes.len() - i,
    {
        let sample = match outcomes[i] {
            TaskOutcome::Completed(elapsed) => latency_sample(elapsed, sleep_duration),
            TaskOutcome::Failed => Span::zero(),
        };
        proof {
            assert(sample@ == all[i as int]);
            assert(all.take(i + 1) =~= all.take(i as int).push(all[i as int]));
            crate::samples::lemma_push(all.take(i as int), all[i as int]);
        }
        if sample.exceeds(&max_latency) {
            max_latency = sample;
        }
        match total_latency.checked_add(&sample) {
            Some(total) => {
                total_latency = total;
            },
            None => {
                proof {
                    assert(all =~= all.take(i + 1) + all.skip(i + 1));
                    crate::samples::lemma_sum_concat(all.take(i + 1), all.skip(i + 1));
                }
                return Err(RunError::Overflow);
            },
        }
        i += 1;
    }
    proof {
        assert(all.take(i as int) =~= all);
    }
    Ok(IterationResult { max_latency, total_latency })
}

} // verus!
