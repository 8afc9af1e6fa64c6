//! The ways in which a configuration is turned down and a run fails.

use vstd::prelude::*;

verus! {

/// Why the three values that configure a run were turned down.
#[derive(Clone, Copy, Debug, PartialEq, Eq, Structural)]
pub enum ConfigError {
    /// The thread count is not a decimal number that fits a `usize`.
    InvalidThreadCount,
    /// The sleep duration is not a decimal number of milliseconds that fits
    /// a `u64`.
    InvalidSleepDuration,
    /// The iteration count is not a decimal number that fits a `usize`.
    InvalidIterationCount,
    /// The thread count is zero, which would leave no sample to average.
    ZeroThreadCount,
    /// The iteration count is zero, which would leave no sample to average.
    ZeroIterationCount,
}

impl ConfigError {
    /// A short description of the error, fit to be shown to the user.
    pub fn message(&self) -> (text: &'static str)
        ensures
            text@ == match *self {
                ConfigError::InvalidThreadCount => "Invalid thread count"@,
                ConfigError::InvalidSleepDuration => "Invalid sleep duration"@,
                ConfigError::InvalidIterationCount => "Invalid iteration count"@,
                ConfigError::ZeroThreadCount => "Thread count must not be zero"@,
                ConfigError::ZeroIterationCount => "Iteration count must not be zero"@,
            },
    {
        match self {
            ConfigError::InvalidThreadCount => "Invalid thread count",
            ConfigError::InvalidSleepDuration => "Invalid sleep duration",
            ConfigError::InvalidIterationCount => "Invalid iteration count",
            ConfigError::ZeroThreadCount => "Thread count must not be zero",
            ConfigError::ZeroIterationCount => "Iteration count must not be zero",
        }
    }
}

/// Why a run stopped without a report.
#[derive(Clone, Copy, Debug, PartialEq, Eq, Structural)]
pub enum RunError {
    /// A sleeper task ended without reporting its elapsed time. `task` is
    /// the position of the first such task within its iteration.
    TaskFailed { task: usize },
    /// An iteration came back with another number of outcomes than the
    /// configured thread count.
    WrongSampleCount { expected: usize, found: usize },
    /// The total latency grew beyond the longest representable span.
    Overflow,
    /// An iteration was handed in after the configured number of iterations
    /// had already been recorded.
    AlreadyComplete,
    /// A recorded run holds another number of iterations than configured.
    WrongIterationCount { expected: usize, found: usize },
}

impl RunError {
    /// A short description of the error, fit to be shown to the user.
    pub fn message(&self) -> (text: &'static str)
        ensures
            text@ == match *self {
                RunError::TaskFailed { .. } => "Thread panicked"@,
                RunError::WrongSampleCount { .. } => "Iteration does not hold one outcome per thread"@,
                RunError::Overflow => "Total latency is too long to represent"@,
                RunError::AlreadyComplete => "Every iteration has already been recorded"@,
                RunError::WrongIterationCount { .. } => "Run does not hold the configured number of iterations"@,
            },
    {
        match self {
            RunError::TaskFailed { .. } => "Thread panicked",
            RunError::WrongSampleCount { .. } => "Iteration does not hold one outcome per thread",
            RunError::Overflow => "Total latency is too long to represent",
            RunError::AlreadyComplete => "Every iteration has already been recorded",
            RunError::WrongIterationCount { .. } => "Run does not hold the configured number of iterations",
        }
    }
}

} // verus!
