use retry::backoff::{grow_delay, jitter_delay, MAX_DELAY};
use retry::policy::{Retry, DEFAULT_ATTEMPTS};
use retry::schedule::{Decision, RetryState};

#[test]
fn new_policy_defaults() {
    let retry = Retry::new("defaults");
    assert_eq!(retry.name, "defaults");
    assert_eq!(retry.attempts, DEFAULT_ATTEMPTS);
    assert_eq!(retry.attempts, 3);
    assert_eq!(retry.base_delay, 0);
    assert_eq!((retry.factor_numer, retry.factor_denom), (1, 1));
    assert!(!retry.enable_jitter);
}

#[test]
fn builders_set_fields() {
    let retry = Retry::new("b").attempts(9).base_delay(5).delay_factor(7, 3).jitter(true);
    assert_eq!(retry.attempts, 9);
    assert_eq!(retry.base_delay, 5);
    assert_eq!((retry.factor_numer, retry.factor_denom), (7, 3));
    assert!(retry.enable_jitter);
    assert_eq!(retry.name, "b");
}

#[test]
fn start_refuses_misconfiguration() {
    assert_eq!(Retry::new("z").attempts(0).start(), None);
    assert_eq!(Retry::new("z").delay_factor(2, 0).start(), None);
    assert_eq!(
        Retry::new("z").base_delay(9).start(),
        Some(RetryState { attempt: 0, delay: 9 })
    );
}

#[test]
fn grow_delay_values() {
    assert_eq!(grow_delay(1000, 2, 1), 2000);
    assert_eq!(grow_delay(1000, 1, 3), 333);
    assert_eq!(grow_delay(0, 10, 1), 0);
    assert_eq!(grow_delay(5, 0, 1), 0);
    assert_eq!(grow_delay(MAX_DELAY, 2, 1), MAX_DELAY);
    assert_eq!(grow_delay(MAX_DELAY, 3, 3), MAX_DELAY);
}

#[test]
fn jitter_delay_values() {
    assert_eq!(jitter_delay(1000, 0), 500);
    assert_eq!(jitter_delay(1000, 1 << 63), 750);
    assert_eq!(jitter_delay(1000, u64::MAX), 999);
    assert_eq!(jitter_delay(1001, 0), 501);
    assert_eq!(jitter_delay(1, u64::MAX), 1);
    assert_eq!(jitter_delay(0, 12345), 0);
    assert!(jitter_delay(MAX_DELAY, u64::MAX) < MAX_DELAY);
}

#[test]
fn decide_is_exact() {
    let retry = Retry::new("d").attempts(3).base_delay(100).delay_factor(4, 1);
    let s = retry.start().unwrap();
    assert_eq!(
        retry.decide(&s, 0),
        Decision::Wait { sleep: 100, next: RetryState { attempt: 1, delay: 400 } }
    );
    let jittered = retry.jitter(true);
    assert_eq!(
        jittered.decide(&s, 1 << 63),
        Decision::Wait { sleep: 75, next: RetryState { attempt: 1, delay: 400 } }
    );
    assert_eq!(retry.decide(&RetryState { attempt: 2, delay: 1600 }, 0), Decision::GiveUp);
    assert_eq!(retry.decide(&RetryState { attempt: 7, delay: 0 }, 0), Decision::GiveUp);
}

#[test]
fn after_failure_without_jitter_is_the_schedule() {
    let retry = Retry::new("f").attempts(3).base_delay(100).delay_factor(4, 1);
    let s = RetryState { attempt: 1, delay: 400 };
    assert_eq!(
        retry.after_failure(&s),
        Decision::Wait { sleep: 400, next: RetryState { attempt: 2, delay: 1600 } }
    );
    assert_eq!(retry.after_failure(&RetryState { attempt: 2, delay: 1600 }), Decision::GiveUp);
}
