use cyclictest::aggregate::{Aggregator, Report, Step};
use cyclictest::config::Config;
use cyclictest::error::RunError;
use cyclictest::iteration::TaskOutcome;
use cyclictest::run::run_test;
use cyclictest::span::{Span, MAX_SPAN_NANOS};

fn nanos(n: u128) -> Span {
    Span::from_nanos(n).unwrap()
}

fn woke_after(n: u128) -> TaskOutcome {
    TaskOutcome::Completed(nanos(n))
}

fn iteration(elapsed: &[u128]) -> Vec<TaskOutcome> {
    elapsed.iter().map(|n| woke_after(*n)).collect()
}

#[test]
fn fresh_aggregator_holds_nothing() {
    let config = Config::new(2, 10, 3).unwrap();
    let aggregator = Aggregator::new(config);
    assert_eq!(aggregator.config(), config);
    assert_eq!(aggregator.iterations_done(), 0);
    assert_eq!(aggregator.max_latency(), Span::zero());
    assert_eq!(aggregator.total_latency(), Span::zero());
    assert_eq!(aggregator.report(), None);
}

#[test]
fn aggregator_asks_for_each_iteration_and_then_reports() {
    let config = Config::new(2, 10, 2).unwrap();
    let mut aggregator = Aggregator::new(config);
    let measure = Step::Measure { thread_count: 2, sleep_duration: Span::from_millis(10) };
    assert_eq!(aggregator.next_step(), measure);
    assert_eq!(aggregator.record(&iteration(&[10_000_004, 10_000_001])), Ok(()));
    assert_eq!(aggregator.iterations_done(), 1);
    assert_eq!(aggregator.next_step(), measure);
    assert_eq!(aggregator.record(&iteration(&[10_000_002, 10_000_007])), Ok(()));
    assert_eq!(aggregator.iterations_done(), 2);
    let report = Report {
        max_latency: nanos(7),
        average_latency: nanos(3),
        total_latency: nanos(14),
        sample_count: 4,
    };
    assert_eq!(aggregator.next_step(), Step::Finished(report));
    assert_eq!(aggregator.report(), Some(report));
}

#[test]
fn running_maximum_and_total_follow_every_iteration() {
    let config = Config::new(3, 0, 3).unwrap();
    let mut aggregator = Aggregator::new(config);
    aggregator.record(&iteration(&[5, 1, 2])).unwrap();
    assert_eq!(aggregator.max_latency(), nanos(5));
    assert_eq!(aggregator.total_latency(), nanos(8));
    aggregator.record(&iteration(&[3, 3, 3])).unwrap();
    assert_eq!(aggregator.max_latency(), nanos(5));
    assert_eq!(aggregator.total_latency(), nanos(17));
    aggregator.record(&iteration(&[0, 9, 0])).unwrap();
    assert_eq!(aggregator.max_latency(), nanos(9));
    assert_eq!(aggregator.total_latency(), nanos(26));
}

#[test]
fn aggregator_refuses_an_iteration_beyond_the_configured_number() {
    let config = Config::new(1, 0, 1).unwrap();
    let mut aggregator = Aggregator::new(config);
    aggregator.record(&iteration(&[4])).unwrap();
    assert_eq!(aggregator.record(&iteration(&[100])), Err(RunError::AlreadyComplete));
    assert_eq!(aggregator.iterations_done(), 1);
    assert_eq!(aggregator.total_latency(), nanos(4));
    assert_eq!(aggregator.max_latency(), nanos(4));
}

#[test]
fn aggregator_is_unchanged_by_a_failed_iteration() {
    let config = Config::new(2, 0, 3).unwrap();
    let mut aggregator = Aggregator::new(config);
    aggregator.record(&iteration(&[4, 6])).unwrap();
    let failed = vec![woke_after(100), TaskOutcome::Failed];
    assert_eq!(aggregator.record(&failed), Err(RunError::TaskFailed { task: 1 }));
    assert_eq!(
        aggregator.record(&iteration(&[1, 2, 3])),
        Err(RunError::WrongSampleCount { expected: 2, found: 3 })
    );
    assert_eq!(
        aggregator.record(&iteration(&[MAX_SPAN_NANOS, 0])),
        Err(RunError::Overflow)
    );
    assert_eq!(aggregator.iterations_done(), 1);
    assert_eq!(aggregator.max_latency(), nanos(6));
    assert_eq!(aggregator.total_latency(), nanos(10));
    assert_eq!(aggregator.report(), None);
}

#[test]
fn aggregator_detects_overflow_across_iterations() {
    let config = Config::new(1, 0, 2).unwrap();
    let mut aggregator = Aggregator::new(config);
    aggregator.record(&iteration(&[MAX_SPAN_NANOS])).unwrap();
    assert_eq!(aggregator.record(&iteration(&[1])), Err(RunError::Overflow));
    assert_eq!(aggregator.record(&iteration(&[0])), Ok(()));
    let report = aggregator.report().unwrap();
    assert_eq!(report.total_latency, nanos(MAX_SPAN_NANOS));
    assert_eq!(report.average_latency, nanos(MAX_SPAN_NANOS / 2));
}

#[test]
fn single_sample_run_reports_equal_maximum_and_average() {
    let config = Config::new(1, 0, 1).unwrap();
    let report = run_test(&config, &vec![iteration(&[123_456])]).unwrap();
    assert_eq!(report.sample_count, 1);
    assert_eq!(report.max_latency, nanos(123_456));
    assert_eq!(report.average_latency, report.max_latency);
    assert_eq!(report.total_latency, report.max_latency);
}

#[test]
fn four_threads_five_iterations_give_twenty_samples() {
    let config = Config::new(4, 10, 5).unwrap();
    let base: u128 = 10_000_000;
    let measurements = vec![
        iteration(&[base + 100, base + 250, base + 75, base + 310]),
        iteration(&[base + 90, base + 20, base + 400, base + 15]),
        iteration(&[base + 5, base + 5, base + 5, base + 5]),
        iteration(&[base + 1_000, base, base + 60, base + 33]),
        iteration(&[base + 210, base + 190, base + 11, base + 2]),
    ];
    let report = run_test(&config, &measurements).unwrap();
    assert_eq!(report.sample_count, 20);
    assert_eq!(report.total_latency, nanos(2_786));
    assert_eq!(report.max_latency, nanos(1_000));
    assert_eq!(report.average_latency, nanos(139));
    assert!(report.average_latency.as_nanos() <= report.max_latency.as_nanos());
    assert!(!report.average_latency.exceeds(&report.max_latency));
}

#[test]
fn total_is_the_sum_and_maximum_the_largest_of_all_samples() {
    let config = Config::new(2, 1, 3).unwrap();
    let base: u128 = 1_000_000;
    let recorded: [[u128; 2]; 3] = [[17, 4], [8, 23], [15, 16]];
    let measurements: Vec<Vec<TaskOutcome>> =
        recorded.iter().map(|row| iteration(&[base + row[0], base + row[1]])).collect();
    let report = run_test(&config, &measurements).unwrap();
    let all: Vec<u128> = recorded.iter().flat_map(|row| row.iter().copied()).collect();
    assert_eq!(report.total_latency.as_nanos(), all.iter().sum::<u128>());
    assert_eq!(report.total_latency, nanos(83));
    assert_eq!(report.max_latency.as_nanos(), *all.iter().max().unwrap());
    assert_eq!(report.max_latency, nanos(23));
    assert_eq!(report.sample_count, all.len() as u128);
    assert_eq!(report.average_latency, nanos(13));
}

#[test]
fn average_is_rounded_once_over_the_grand_total() {
    let config = Config::new(2, 0, 2).unwrap();
    let report = run_test(&config, &vec![iteration(&[3, 0]), iteration(&[5, 0])]).unwrap();
    assert_eq!(report.total_latency, nanos(8));
    assert_eq!(report.average_latency, nanos(2));
}

#[test]
fn run_fails_with_the_first_iteration_that_fails() {
    let config = Config::new(2, 0, 3).unwrap();
    let measurements = vec![
        iteration(&[1, 2]),
        vec![TaskOutcome::Failed, woke_after(2)],
        iteration(&[1, 2, 3]),
    ];
    assert_eq!(run_test(&config, &measurements), Err(RunError::TaskFailed { task: 0 }));
    let measurements = vec![
        iteration(&[1, 2]),
        iteration(&[1, 2, 3]),
        vec![TaskOutcome::Failed, woke_after(2)],
    ];
    assert_eq!(
        run_test(&config, &measurements),
        Err(RunError::WrongSampleCount { expected: 2, found: 3 })
    );
}

#[test]
fn run_fails_when_the_total_cannot_be_represented() {
    let config = Config::new(1, 0, 2).unwrap();
    let measurements = vec![iteration(&[MAX_SPAN_NANOS]), iteration(&[1])];
    assert_eq!(run_test(&config, &measurements), Err(RunError::Overflow));
}

#[test]
fn run_fails_on_another_number_of_iterations() {
    let config = Config::new(1, 0, 2).unwrap();
    assert_eq!(
        run_test(&config, &vec![iteration(&[1])]),
        Err(RunError::WrongIterationCount { expected: 2, found: 1 })
    );
    assert_eq!(
        run_test(&config, &vec![]),
        Err(RunError::WrongIterationCount { expected: 2, found: 0 })
    );
    assert_eq!(
        run_test(&config, &vec![iteration(&[1]), iteration(&[1]), vec![TaskOutcome::Failed]]),
        Err(RunError::WrongIterationCount { expected: 2, found: 3 })
    );
}

#[test]
fn run_over_recorded_iterations_agrees_with_stepwise_aggregation() {
    let config = Config::new(3, 2, 2).unwrap();
    let base: u128 = 2_000_000;
    let measurements = vec![
        iteration(&[base + 9, base + 1, base + 4]),
        iteration(&[base + 2, base + 12, base]),
    ];
    let mut aggregator = Aggregator::new(config);
    for outcomes in &measurements {
        aggregator.record(outcomes).unwrap();
    }
    assert_eq!(run_test(&config, &measurements).ok(), aggregator.report());
    assert_eq!(aggregator.report().unwrap().average_latency, nanos(4));
}
