//! The decisions of a retry loop, as a state machine.
//!
//! A run begins in the state that `Retry::start` returns and invokes the
//! operation once in each state it reaches. When the operation succeeds the
//! run returns its value. When it fails, `Retry::after_failure` tells the
//! loop either to give up, returning that error, or to wait and go on in the
//! next state.
use vstd::prelude::*;
use crate::backoff::{grow_delay, grown, jitter_delay, jittered, random_word};
use crate::policy::Retry;

verus! {

/// The state of one run: the index of the attempt about to be made, and
/// the delay scheduled after it, in nanoseconds.
#[derive(Clone, Copy, Debug, PartialEq, Eq, Structural)]
pub struct RetryState {
    pub attempt: u32,
    pub delay: u64,
}

/// What a run does after a failed attempt.
#[derive(Clone, Copy, Debug, PartialEq, Eq, Structural)]
pub enum Decision {
    /// The failed attempt was the last: return its error.
    GiveUp,
    /// Sleep for `sleep` nanoseconds, then make the next attempt in `next`.
    Wait { sleep: u64, next: RetryState },
}

impl Retry {
    /// The delay scheduled after attempt `i` of a run.
    pub open spec fn scheduled_delay(self, i: nat) -> int
        decreases i,
    {
        if i == 0 {
            self.base_delay as int
        } else {
            grown(
                self.scheduled_delay((i - 1) as nat),
                self.factor_numer as int,
                self.factor_denom as int,
            )
        }
    }

    /// `s` is the state in which a run makes attempt `i`.
    pub open spec fn reached(self, s: RetryState, i: nat) -> bool {
        s.attempt == i && s.delay == self.scheduled_delay(i)
    }

    /// The attempt made in `s` is the last one of the run.
    pub open spec fn is_last(self, s: RetryState) -> bool {
        s.attempt + 1 >= self.attempts
    }

    /// The state after a failed attempt in `s` that is not the last.
    pub open spec fn successor(self, s: RetryState) -> RetryState {
        RetryState {
            attempt: (s.attempt + 1) as u32,
            delay: grown(s.delay as int, self.factor_numer as int, self.factor_denom as int) as u64,
        }
    }

    /// The sleep for a scheduled `delay` when the random word is `draw`.
    pub open spec fn wait_for(self, delay: u64, draw: u64) -> int {
        if self.enable_jitter {
            jittered(delay as int, draw as int)
        } else {
            delay as int
        }
    }

    /// `sleep` is a wait that the policy allows for a scheduled `delay`:
    /// the delay itself without jitter; with jitter, at least half of it
    /// and at most all of it, and less than all of it from two nanoseconds
    /// on.
    pub open spec fn allowed_wait(self, delay: u64, sleep: u64) -> bool {
        if self.enable_jitter {
            delay <= 2 * sleep && sleep <= delay && (delay >= 2 ==> sleep < delay)
        } else {
            sleep == delay
        }
    }

    /// The decision after a failed attempt in `s`, when the random word is
    /// `draw`.
    pub open spec fn decision(self, s: RetryState, draw: u64) -> Decision {
        if self.is_last(s) {
            Decision::GiveUp
        } else {
            Decision::Wait { sleep: self.wait_for(s.delay, draw) as u64, next: self.successor(s) }
        }
    }

    /// The first state of a run, or `None` when the policy cannot start
    /// one: it allows no attempt, or its growth factor has a zero
    /// denominator.
    pub fn start(&self) -> (r: Option<RetryState>)
        ensures
            r is Some <==> self.wf(),
            r matches Some(s) ==> self.reached(s, 0) && s == (RetryState {
                attempt: 0,
                delay: self.base_delay,
            }),
    {
        if self.attempts == 0 || self.factor_denom == 0 {
            None
        } else {
            Some(RetryState { attempt: 0, delay: self.base_delay })
        }
    }

    /// The decision after a failed attempt in `s`, when the random word
    /// for the jitter is `draw`.
    pub fn decide(&self, s: &RetryState, draw: u64) -> (r: Decision)
        requires
            self.wf(),
        ensures
            r == self.decision(*s, draw),
    {
        if s.attempt >= self.attempts - 1 {
            Decision::GiveUp
        } else {
            let next_delay = grow_delay(s.delay, self.factor_numer, self.factor_denom);
            let sleep = if self.enable_jitter {
                jitter_delay(s.delay, draw)
            } else {
                s.delay
            };
            Decision::Wait { sleep, next: RetryState { attempt: s.attempt + 1, delay: next_delay } }
        }
    }

    /// The decision after a failed attempt in `s`, drawing a random word
    /// for the jitter when the policy asks for jitter.
    pub fn after_failure(&self, s: &RetryState) -> (r: Decision)
        requires
            self.wf(),
        ensures
            exists|draw: u64| r == self.decision(*s, draw),
            r is GiveUp <==> self.is_last(*s),
            r matches Decision::Wait { sleep, next } ==> next == self.successor(*s)
                && self.allowed_wait(s.delay, sleep),
    {
        let draw: u64 = if self.enable_jitter {
            random_word()
        } else {
            0
        };
        let r = self.decide(s, draw);
        proof {
            if self.enable_jitter && !self.is_last(*s) {
                let sleep = jittered(s.delay as int, draw as int);
                assert(0 <= sleep <= s.delay && s.delay <= 2 * sleep && (s.delay >= 2 ==> sleep
                    < s.delay)) by {
                    crate::backoff::lemma_jitter_bounds(s.delay as int, draw as int);
                }
            }
        }
        r
    }
}

} // verus!
