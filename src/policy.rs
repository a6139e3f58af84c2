//! The retry policy and its builder.
use vstd::prelude::*;

verus! {

/// Number of attempts of a freshly built policy.
pub const DEFAULT_ATTEMPTS: u32 = 3;

/// Configuration of a retried operation.
///
/// Delays are counted in nanoseconds. After each failed attempt the delay
/// is multiplied by `factor_numer / factor_denom`.
#[derive(Clone, Copy, Debug)]
pub struct Retry {
    /// Name of the operation being retried, for diagnostics only.
    pub name: &'static str,
    /// The total number of attempts to make.
    pub attempts: u32,
    /// The delay after the first failed attempt, in nanoseconds.
    pub base_delay: u64,
    /// Numerator of the factor by which the delay grows.
    pub factor_numer: u64,
    /// Denominator of the factor by which the delay grows.
    pub factor_denom: u64,
    /// If true, each wait is drawn from `[delay / 2, delay)`.
    pub enable_jitter: bool,
}

impl Retry {
    /// A policy may start a run: at least one attempt, and a growth factor
    /// with a positive denominator.
    pub open spec fn wf(self) -> bool {
        self.attempts >= 1 && self.factor_denom >= 1
    }

    /// A policy with default parameters: three attempts, no delay, a growth
    /// factor of one and no jitter.
    pub fn new(name: &'static str) -> (r: Self)
        ensures
            r.name == name,
            r.attempts == DEFAULT_ATTEMPTS,
            r.base_delay == 0,
            r.factor_numer == 1,
            r.factor_denom == 1,
            !r.enable_jitter,
            r.wf(),
    {
        Retry {
            name,
            attempts: DEFAULT_ATTEMPTS,
            base_delay: 0,
            factor_numer: 1,
            factor_denom: 1,
            enable_jitter: false,
        }
    }

    /// Sets the number of attempts to make.
    pub fn attempts(self, attempts: u32) -> (r: Self)
        ensures
            r == (Retry { attempts, ..self }),
    {
        Retry { attempts, ..self }
    }

    /// Sets the base delay, in nanoseconds.
    pub fn base_delay(self, nanos: u64) -> (r: Self)
        ensures
            r == (Retry { base_delay: nanos, ..self }),
    {
        Retry { base_delay: nanos, ..self }
    }

    /// Sets the factor `numer / denom` by which the delay grows.
    pub fn delay_factor(self, numer: u64, denom: u64) -> (r: Self)
        ensures
            r == (Retry { factor_numer: numer, factor_denom: denom, ..self }),
    {
        Retry { factor_numer: numer, factor_denom: denom, ..self }
    }

    /// Enables or disables jitter.
    pub fn jitter(self, enabled: bool) -> (r: Self)
        ensures
            r == (Retry { enable_jitter: enabled, ..self }),
    {
        Retry { enable_jitter: enabled, ..self }
    }
}

} // verus!
