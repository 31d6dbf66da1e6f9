//! Bounded retry with exponential backoff.

use vstd::prelude::*;
use vstd::arithmetic::power::{lemma0_pow, lemma_pow0, lemma_pow_positive, pow};

verus! {

/// Attempts made by default before a request is given up.
pub const DEFAULT_MAX_ATTEMPTS: u32 = 3;

/// Default delay, in milliseconds, before the second attempt.
pub const DEFAULT_INITIAL_BACKOFF_MS: u64 = 500;

/// Default factor by which the delay grows from one attempt to the next.
pub const DEFAULT_BACKOFF_MULTIPLIER: u64 = 2;

/// How often a request is tried and how long to wait between tries.
#[derive(Clone, Copy, Debug, PartialEq, Eq)]
pub struct RetryPolicy {
    /// Upper bound on the attempts of one request.
    pub max_attempts: u32,
    /// Delay in milliseconds after the first failed attempt.
    pub initial_backoff_ms: u64,
    /// Factor applied to the delay after every further failed attempt.
    pub multiplier: u64,
}

/// What to do after a failed attempt.
#[derive(Clone, Copy, Debug, PartialEq, Eq)]
pub enum Retry {
    /// Wait this many milliseconds, then try again.
    After(u64),
    /// The attempt budget is spent.
    GiveUp,
}

impl RetryPolicy {
    /// The delay after the `failed`-th failed attempt if delays could grow
    /// without bound: the initial delay times the multiplier, once for each
    /// earlier failure.
    pub open spec fn ideal_delay(self, failed: nat) -> int
        recommends
            failed >= 1,
    {
        self.initial_backoff_ms * pow(self.multiplier as int, (failed - 1) as nat)
    }

    /// The delay in milliseconds after the `failed`-th failed attempt: the
    /// ideal delay, held at the largest value a `u64` can carry.
    pub open spec fn delay_after(self, failed: nat) -> u64
        recommends
            failed >= 1,
    {
        if self.ideal_delay(failed) > u64::MAX {
            u64::MAX
        } else {
            self.ideal_delay(failed) as u64
        }
    }

    /// The sum of the delays after the first `failed` failed attempts.
    pub open spec fn total_delay(self, failed: nat) -> nat
        decreases failed,
    {
        if failed == 0 {
            0
        } else {
            self.total_delay((failed - 1) as nat) + self.delay_after(failed) as nat
        }
    }

    /// A policy with the given bounds.
    pub fn new(max_attempts: u32, initial_backoff_ms: u64, multiplier: u64) -> (policy: Self)
        ensures
            policy == (RetryPolicy { max_attempts, initial_backoff_ms, multiplier }),
    {
        RetryPolicy { max_attempts, initial_backoff_ms, multiplier }
    }

    /// Three attempts, half a second before the second, doubling from there.
    pub fn standard() -> (policy: Self)
        ensures
            policy == (RetryPolicy {
                max_attempts: DEFAULT_MAX_ATTEMPTS,
                initial_backoff_ms: DEFAULT_INITIAL_BACKOFF_MS,
                multiplier: DEFAULT_BACKOFF_MULTIPLIER,
            }),
    {
        RetryPolicy {
            max_attempts: DEFAULT_MAX_ATTEMPTS,
            initial_backoff_ms: DEFAULT_INITIAL_BACKOFF_MS,
            multiplier: DEFAULT_BACKOFF_MULTIPLIER,
        }
    }
}

impl Default for RetryPolicy {
    fn default() -> (policy: Self)
        ensures
            policy == (RetryPolicy {
                max_attempts: DEFAULT_MAX_ATTEMPTS,
                initial_backoff_ms: DEFAULT_INITIAL_BACKOFF_MS,
                multiplier: DEFAULT_BACKOFF_MULTIPLIER,
            }),
    {
        RetryPolicy::standard()
    }
}

/// The product of two delays, held at the largest value a `u64` can carry.
pub open spec fn saturating_product(a: u64, b: u64) -> u64 {
    if a * b > u64::MAX {
        u64::MAX
    } else {
        (a * b) as u64
    }
}

/// Multiplies without overflow: the product, or `u64::MAX` where it does not fit.
pub fn saturating_mul(a: u64, b: u64) -> (product: u64)
    ensures
        product == saturating_product(a, b),
{
    match a.checked_mul(b) {
        Some(p) => p,
        None => u64::MAX,
    }
}

/// The delay after the first failure is the initial delay.
pub proof fn lemma_first_delay(policy: RetryPolicy)
    ensures
        policy.delay_after(1) == policy.initial_backoff_ms,
{
    lemma_pow0(policy.multiplier as int);
}

/// No ideal delay is negative.
pub proof fn lemma_ideal_delay_nonnegative(policy: RetryPolicy, failed: nat)
    ensures
        policy.ideal_delay(failed) >= 0,
{
    let m = policy.multiplier as int;
    let e = (failed - 1) as nat;
    if m == 0 {
        if e == 0 {
            lemma_pow0(m);
        } else {
            lemma0_pow(e);
        }
    } else {
        lemma_pow_positive(m, e);
    }
    assert(policy.initial_backoff_ms * pow(m, e) >= 0) by (nonlinear_arith)
        requires
            policy.initial_backoff_ms >= 0,
            pow(m, e) >= 0,
    ;
}

/// Each delay is the one before it times the multiplier, held at `u64::MAX`.
pub proof fn lemma_next_delay(policy: RetryPolicy, failed: nat)
    requires
        failed >= 1,
    ensures
        policy.delay_after(failed + 1) == saturating_product(
            policy.delay_after(failed),
            policy.multiplier,
        ),
{
    let m = policy.multiplier as int;
    let i = policy.initial_backoff_ms as int;
    let e = (failed - 1) as nat;
    let p = pow(m, e);
    let t = policy.ideal_delay(failed);
    let next = policy.ideal_delay(failed + 1);
    lemma_ideal_delay_nonnegative(policy, failed);
    lemma_ideal_delay_nonnegative(policy, failed + 1);
    assert(pow(m, failed) == m * p) by {
        reveal(pow);
    }
    assert(next == t * m) by (nonlinear_arith)
        requires
            next == i * (m * p),
            t == i * p,
    ;
    if t > u64::MAX {
        if m == 0 {
            if e == 0 {
                lemma_pow0(m);
            } else {
                lemma0_pow(e);
            }
            assert(t <= i) by (nonlinear_arith)
                requires
                    t == i * p,
                    p == 0 || p == 1,
                    i >= 0,
            ;
        } else {
            assert(t * m > u64::MAX && u64::MAX * m >= u64::MAX) by (nonlinear_arith)
                requires
                    t > u64::MAX,
                    m >= 1,
            ;
            assert(policy.delay_after(failed) == u64::MAX);
            assert(policy.delay_after(failed + 1) == u64::MAX);
            assert(policy.delay_after(failed) * policy.multiplier >= u64::MAX);
        }
    } else {
        assert(policy.delay_after(failed) == t);
        assert(policy.delay_after(failed) * policy.multiplier == next);
    }
}

/// From half a second and doubling, as by default, the delays are 500 ms,
/// then 1000 ms: 1500 ms in all before a third attempt.
pub proof fn lemma_default_delays(policy: RetryPolicy)
    requires
        policy.initial_backoff_ms == DEFAULT_INITIAL_BACKOFF_MS,
        policy.multiplier == DEFAULT_BACKOFF_MULTIPLIER,
    ensures
        policy.delay_after(1) == 500,
        policy.delay_after(2) == 1000,
        policy.total_delay(2) == 1500,
{
    lemma_first_delay(policy);
    lemma_next_delay(policy, 1);
    assert(policy.total_delay(2) == policy.total_delay(1) + 1000);
    assert(policy.total_delay(1) == policy.total_delay(0) + 500);
}

/// Where no delay reaches `u64::MAX`, the delays grow exactly exponentially.
pub proof fn lemma_delay_is_exponential(policy: RetryPolicy, failed: nat)
    requires
        failed >= 1,
        policy.ideal_delay(failed) <= u64::MAX,
    ensures
        policy.delay_after(failed) == policy.initial_backoff_ms * pow(
            policy.multiplier as int,
            (failed - 1) as nat,
        ),
{
    lemma_ideal_delay_nonnegative(policy, failed);
}

/// The attempt counter and current delay of one request.
///
/// A value is created for each request and dropped when the request returns;
/// nothing of it outlives the call.
#[derive(Clone, Copy, Debug)]
pub struct Backoff {
    policy: RetryPolicy,
    attempt: u32,
    delay_ms: u64,
}

impl Backoff {
    #[verifier::type_invariant]
    spec fn inv(self) -> bool {
        &&& self.attempt >= 1
        &&& self.policy.max_attempts >= 1 ==> self.attempt <= self.policy.max_attempts
        &&& self.delay_ms == self.policy.delay_after(self.attempt as nat)
    }

    /// The policy this request runs under.
    pub closed spec fn policy(self) -> RetryPolicy {
        self.policy
    }

    /// The number of the attempt under way, counted from 1.
    pub closed spec fn attempt(self) -> nat {
        self.attempt as nat
    }

    /// Whether the attempt under way is the last one the policy allows.
    pub open spec fn exhausted(self) -> bool {
        self.attempt() >= self.policy().max_attempts
    }

    /// The state before the first attempt of a request.
    pub fn start(policy: RetryPolicy) -> (backoff: Self)
        ensures
            backoff.policy() == policy,
            backoff.attempt() == 1,
    {
        proof {
            lemma_first_delay(policy);
        }
        Backoff { policy, attempt: 1, delay_ms: policy.initial_backoff_ms }
    }

    /// The number of the attempt under way, counted from 1. It never
    /// exceeds the number of attempts that the policy allows, unless the
    /// policy allows none.
    pub fn attempt_number(&self) -> (n: u32)
        ensures
            n == self.attempt(),
            n >= 1,
            self.policy().max_attempts >= 1 ==> n <= self.policy().max_attempts,
    {
        proof {
            use_type_invariant(self);
        }
        self.attempt
    }

    /// The policy this request runs under.
    pub fn retry_policy(&self) -> (policy: RetryPolicy)
        ensures
            policy == self.policy(),
    {
        self.policy
    }

    /// The delay in milliseconds that follows if the attempt under way fails
    /// and another one is allowed.
    pub fn delay_ms(&self) -> (ms: u64)
        ensures
            ms == self.policy().delay_after(self.attempt()),
    {
        proof {
            use_type_invariant(self);
        }
        self.delay_ms
    }

    /// Records that the attempt under way has failed.
    ///
    /// While the policy allows another attempt, the answer is the delay to
    /// wait first, and the state moves on to the next attempt with the delay
    /// multiplied. On the last attempt the answer is to give up, and the
    /// state stays as it is.
    pub fn fail(&mut self) -> (retry: Retry)
        ensures
            final(self).policy() == old(self).policy(),
            old(self).exhausted() ==> retry == Retry::GiveUp && *final(self) == *old(self),
            !old(self).exhausted() ==> retry == Retry::After(
                old(self).policy().delay_after(old(self).attempt()),
            ) && final(self).attempt() == old(self).attempt() + 1,
    {
        proof {
            use_type_invariant(&*self);
        }
        if self.attempt >= self.policy.max_attempts {
            Retry::GiveUp
        } else {
            let wait: u64 = self.delay_ms;
            proof {
                lemma_next_delay(self.policy, self.attempt as nat);
            }
            let next_delay: u64 = saturating_mul(self.delay_ms, self.policy.multiplier);
            *self = Backoff {
                policy: self.policy,
                attempt: self.attempt + 1,
                delay_ms: next_delay,
            };
            Retry::After(wait)
        }
    }
}

} // verus!
