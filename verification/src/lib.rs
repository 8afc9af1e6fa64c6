//! Scheduling-latency measurement: how much longer than requested a sleeping
//! thread stays asleep, aggregated over concurrent sleepers and repeated trials.
//!
//! The library holds everything about a run that is a matter of arithmetic
//! and rules, and nothing that touches a clock or a thread:
//!
//! - [`config`] reads and validates the thread count, the sleep duration and
//!   the iteration count;
//! - [`iteration`] reduces the outcomes of one iteration's sleeper tasks to
//!   the largest and the total latency;
//! - [`aggregate`] folds iteration after iteration into the running maximum
//!   and total, tells the driver what to do next, and makes the report;
//! - [`run`] aggregates a run whose measurements were recorded beforehand;
//! - [`samples`] defines sum, maximum and average of latency samples;
//! - [`span`] is the time span that all of them count in;
//! - [`decimal`] reads unsigned decimal numbers;
//! - [`error`] lists what can go wrong.
//!
//! A driver starts the threads, lets them sleep, and hands what they
//! measured to an [`aggregate::Aggregator`].

pub mod aggregate;
pub mod config;
pub mod decimal;
pub mod error;
pub mod iteration;
pub mod run;
pub mod samples;
pub mod span;
