use theater_mcp_server::theater::backoff::{
    saturating_mul, Backoff, Retry, RetryPolicy, DEFAULT_BACKOFF_MULTIPLIER,
    DEFAULT_INITIAL_BACKOFF_MS, DEFAULT_MAX_ATTEMPTS,
};

#[test]
fn standard_policy_is_three_attempts_from_half_a_second_doubling() {
    let policy = RetryPolicy::standard();
    assert_eq!(policy.max_attempts, 3);
    assert_eq!(policy.initial_backoff_ms, 500);
    assert_eq!(policy.multiplier, 2);
    assert_eq!(policy, RetryPolicy::default());
    assert_eq!(DEFAULT_MAX_ATTEMPTS, 3);
    assert_eq!(DEFAULT_INITIAL_BACKOFF_MS, 500);
    assert_eq!(DEFAULT_BACKOFF_MULTIPLIER, 2);
}

#[test]
fn standard_backoff_sleeps_500_then_1000_then_gives_up() {
    let mut backoff = Backoff::start(RetryPolicy::standard());
    assert_eq!(backoff.attempt_number(), 1);
    assert_eq!(backoff.delay_ms(), 500);
    assert_eq!(backoff.fail(), Retry::After(500));
    assert_eq!(backoff.attempt_number(), 2);
    assert_eq!(backoff.delay_ms(), 1000);
    assert_eq!(backoff.fail(), Retry::After(1000));
    assert_eq!(backoff.attempt_number(), 3);
    assert_eq!(backoff.fail(), Retry::GiveUp);
    assert_eq!(backoff.attempt_number(), 3);
    assert_eq!(backoff.fail(), Retry::GiveUp);
}

#[test]
fn delays_grow_by_the_multiplier() {
    let mut backoff = Backoff::start(RetryPolicy::new(5, 10, 3));
    assert_eq!(backoff.fail(), Retry::After(10));
    assert_eq!(backoff.fail(), Retry::After(30));
    assert_eq!(backoff.fail(), Retry::After(90));
    assert_eq!(backoff.fail(), Retry::After(270));
    assert_eq!(backoff.fail(), Retry::GiveUp);
}

#[test]
fn delays_stop_at_the_largest_value() {
    let mut backoff = Backoff::start(RetryPolicy::new(4, u64::MAX / 2 + 1, 2));
    assert_eq!(backoff.fail(), Retry::After(u64::MAX / 2 + 1));
    assert_eq!(backoff.fail(), Retry::After(u64::MAX));
    assert_eq!(backoff.fail(), Retry::After(u64::MAX));
    assert_eq!(backoff.fail(), Retry::GiveUp);
}

#[test]
fn a_multiplier_of_zero_or_one() {
    let mut flat = Backoff::start(RetryPolicy::new(3, 7, 1));
    assert_eq!(flat.fail(), Retry::After(7));
    assert_eq!(flat.fail(), Retry::After(7));
    let mut zero = Backoff::start(RetryPolicy::new(3, 7, 0));
    assert_eq!(zero.fail(), Retry::After(7));
    assert_eq!(zero.fail(), Retry::After(0));
}

#[test]
fn a_single_attempt_is_never_retried() {
    let mut backoff = Backoff::start(RetryPolicy::new(1, 500, 2));
    assert_eq!(backoff.fail(), Retry::GiveUp);
    let mut none = Backoff::start(RetryPolicy::new(0, 500, 2));
    assert_eq!(none.fail(), Retry::GiveUp);
    assert_eq!(none.retry_policy().max_attempts, 0);
}

#[test]
fn saturating_mul_holds_at_the_largest_value() {
    assert_eq!(saturating_mul(6, 7), 42);
    assert_eq!(saturating_mul(0, u64::MAX), 0);
    assert_eq!(saturating_mul(u64::MAX, 1), u64::MAX);
    assert_eq!(saturating_mul(u64::MAX, 2), u64::MAX);
    assert_eq!(saturating_mul(1 << 32, 1 << 32), u64::MAX);
    assert_eq!(saturating_mul(1 << 32, (1 << 32) - 1), u64::MAX - (1 << 32) + 1);
}
