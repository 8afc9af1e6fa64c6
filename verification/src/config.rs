//! The three values that configure a run, and their validation.

use vstd::prelude::*;
use vstd::string::StringSliceAdditionalSpecFns;
use crate::decimal::{decimal_value, parse_u64, parse_usize, spells_at_most};
use crate::error::ConfigError;
use crate::span::{Span, NANOS_PER_MILLI};

verus! {

/// A validated configuration: how many sleeper tasks run side by side in
/// each iteration, how long each is asked to sleep, and how many iterations
/// are run. Both counts are positive, so a finished run always holds at
/// least one sample.
///
/// The thread count has no upper limit. Every task of an iteration gets a
/// thread of its own, because the behaviour of the scheduler under that
/// many runnable threads is what is measured; a count that the host cannot
/// carry is the caller's to avoid.
#[derive(Clone, Copy, Debug, PartialEq, Eq, Structural)]
pub struct Config {
    thread_count: usize,
    sleep_duration: Span,
    iterations: usize,
}

/// A configuration as plain numbers; the sleep duration in nanoseconds.
pub struct ConfigView {
    pub thread_count: nat,
    pub sleep_duration: nat,
    pub iterations: nat,
}

impl ConfigView {
    /// The number of samples that a whole run collects.
    pub open spec fn sample_count(self) -> nat {
        self.thread_count * self.iterations
    }

    /// What validation makes of a thread count, a sleep duration in
    /// milliseconds and an iteration count: a count of zero is turned down,
    /// the thread count first, and anything else is a configuration.
    pub open spec fn validated(thread_count: nat, sleep_duration_ms: nat, iterations: nat) -> Result<
        ConfigView,
        ConfigError,
    > {
        if thread_count == 0 {
            Err(ConfigError::ZeroThreadCount)
        } else if iterations == 0 {
            Err(ConfigError::ZeroIterationCount)
        } else {
            Ok(
                ConfigView {
                    thread_count,
                    sleep_duration: sleep_duration_ms * (NANOS_PER_MILLI as nat),
                    iterations,
                },
            )
        }
    }

    /// What reading makes of the three values as text. Each must be an
    /// unsigned decimal number that fits its type: a `usize` for the two
    /// counts, a `u64` for the milliseconds. The first that is not is the
    /// error; three numbers are validated.
    pub open spec fn parsed(thread_count: Seq<u8>, sleep_duration_ms: Seq<u8>, iterations: Seq<u8>) -> Result<
        ConfigView,
        ConfigError,
    > {
        if !spells_at_most(thread_count, usize::MAX as nat) {
            Err(ConfigError::InvalidThreadCount)
        } else if !spells_at_most(sleep_duration_ms, u64::MAX as nat) {
            Err(ConfigError::InvalidSleepDuration)
        } else if !spells_at_most(iterations, usize::MAX as nat) {
            Err(ConfigError::InvalidIterationCount)
        } else {
            ConfigView::validated(
                decimal_value(thread_count),
                decimal_value(sleep_duration_ms),
                decimal_value(iterations),
            )
        }
    }
}

impl View for Config {
    type V = ConfigView;

    closed spec fn view(&self) -> ConfigView {
        ConfigView {
            thread_count: self.thread_count as nat,
            sleep_duration: self.sleep_duration@,
            iterations: self.iterations as nat,
        }
    }
}

impl Config {
    #[verifier::type_invariant]
    spec fn counts_positive(self) -> bool {
        self.thread_count > 0 && self.iterations > 0
    }

    /// Validates a configuration. A thread count or an iteration count of
    /// zero is turned down, the thread count first: with either there would
    /// be no sample, and no average.
    pub fn new(thread_count: usize, sleep_duration_ms: u64, iterations: usize) -> (result: Result<
        Config,
        ConfigError,
    >)
        ensures
            match result {
                Ok(config) => ConfigView::validated(
                    thread_count as nat,
                    sleep_duration_ms as nat,
                    iterations as nat,
                ) == Ok::<ConfigView, ConfigError>(config@),
                Err(error) => ConfigView::validated(
                    thread_count as nat,
                    sleep_duration_ms as nat,
                    iterations as nat,
                ) == Err::<ConfigView, ConfigError>(error),
            },
    {
        if thread_count == 0 {
            Err(ConfigError::ZeroThreadCount)
        } else if iterations == 0 {
            Err(ConfigError::ZeroIterationCount)
        } else {
            Ok(Config { thread_count, sleep_duration: Span::from_millis(sleep_duration_ms), iterations })
        }
    }

    /// Reads and validates a configuration from the three values as they
    /// are typed: the thread count, the sleep duration in milliseconds, and
    /// the iteration count, each an unsigned decimal number.
    ///
    /// The values are read in that order, and the first that is not a
    /// number, or does not fit its type, is the error. Only then are the
    /// counts tested for zero, as [`Config::new`] does.
    pub fn parse(thread_count: &str, sleep_duration_ms: &str, iterations: &str) -> (result: Result<
        Config,
        ConfigError,
    >)
        ensures
            match result {
                Ok(config) => ConfigView::parsed(
                    thread_count.spec_bytes(),
                    sleep_duration_ms.spec_bytes(),
                    iterations.spec_bytes(),
                ) == Ok::<ConfigView, ConfigError>(config@),
                Err(error) => ConfigView::parsed(
                    thread_count.spec_bytes(),
                    sleep_duration_ms.spec_bytes(),
                    iterations.spec_bytes(),
                ) == Err::<ConfigView, ConfigError>(error),
            },
    {
        let threads = match parse_usize(thread_count.as_bytes()) {
            Some(threads) => threads,
            None => {
                return Err(ConfigError::InvalidThreadCount);
            },
        };
        let millis = match parse_u64(sleep_duration_ms.as_bytes()) {
            Some(millis) => millis,
            None => {
                return Err(ConfigError::InvalidSleepDuration);
            },
        };
        let rounds = match parse_usize(iterations.as_bytes()) {
            Some(rounds) => rounds,
            None => {
                return Err(ConfigError::InvalidIterationCount);
            },
        };
        Config::new(threads, millis, rounds)
    }

    /// The number of sleeper tasks per iteration; never zero.
    pub fn thread_count(&self) -> (count: usize)
        ensures
            count == self@.thread_count,
            count > 0,
    {
        proof {
            use_type_invariant(self);
        }
        self.thread_count
    }

    /// The time each task is asked to sleep.
    pub fn sleep_duration(&self) -> (duration: Span)
        ensures
            duration@ == self@.sleep_duration,
    {
        self.sleep_duration
    }

    /// The number of iterations; never zero.
    pub fn iterations(&self) -> (count: usize)
        ensures
            count == self@.iterations,
            count > 0,
    {
        proof {
            use_type_invariant(self);
        }
        self.iterations
    }

    /// The number of samples that a whole run collects: one per task and
    /// iteration; never zero.
    pub fn sample_count(&self) -> (count: u128)
        ensures
            count == self@.sample_count(),
            count > 0,
    {
        proof {
            use_type_invariant(self);
        }
        let threads: u128 = self.thread_count as u128;
        let iterations: u128 = self.iterations as u128;
        assert(0 < threads * iterations <= u128::MAX) by (nonlinear_arith)
            requires
                0 < threads <= u64::MAX,
                0 < iterations <= u64::MAX,
        ;
        threads * iterations
    }
}

} // verus!
