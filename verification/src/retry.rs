//! When a failed operation is retried, and after how long.
//!
//! An operation is tried up to `max_retries + 1` times. After failed
//! attempt `a` (counted from 0) it is retried after the delay for `a`,
//! unless `a` was the last allowed attempt, in which case the last error is
//! returned.

use vstd::prelude::*;

use crate::context::{BackoffStrategy, RetryConfig};

verus! {

/// What to do after an attempt failed.
#[derive(Debug, Clone, Copy, PartialEq, Eq, Structural)]
pub enum RetryDecision {
    /// Try again after the delay; `None` when the delay grows exponentially
    /// and is computed by the caller.
    RetryAfter { delay_ms: Option<u64> },
    /// Stop and report the last error.
    GiveUp,
}

/// The delay before retry `attempt`, as `RetryConfig::delay_for_attempt`
/// gives it.
pub open spec fn delay_spec(config: RetryConfig, attempt: u32) -> Option<u64> {
    match config.backoff {
        BackoffStrategy::Fixed => Some(config.delay_ms),
        BackoffStrategy::Linear => Some((config.delay_ms * attempt) as u64),
        BackoffStrategy::Exponential { .. } => None,
    }
}

/// The decision after failed attempt `attempt`.
pub open spec fn retry_decision(config: RetryConfig, attempt: u32) -> RetryDecision {
    if attempt < config.max_retries {
        RetryDecision::RetryAfter { delay_ms: delay_spec(config, attempt) }
    } else {
        RetryDecision::GiveUp
    }
}

/// Decides what follows failed attempt `attempt` (counted from 0).
pub fn after_failure(config: &RetryConfig, attempt: u32) -> (r: RetryDecision)
    requires
        attempt <= config.max_retries,
        attempt < config.max_retries && config.backoff is Linear ==> config.delay_ms * attempt
            <= u64::MAX,
    ensures
        r == retry_decision(*config, attempt),
{
    if attempt < config.max_retries {
        RetryDecision::RetryAfter { delay_ms: config.delay_for_attempt(attempt) }
    } else {
        RetryDecision::GiveUp
    }
}

/// An operation that keeps failing is tried exactly `max_retries + 1` times:
/// every attempt before the last is followed by a retry, and the last one
/// by giving up.
pub proof fn law_retry_count(config: RetryConfig, attempt: u32)
    requires
        attempt <= config.max_retries,
    ensures
        attempt < config.max_retries <==> retry_decision(config, attempt) is RetryAfter,
        attempt == config.max_retries <==> retry_decision(config, attempt) is GiveUp,
{
}

/// What a retried operation goes through, deciding after each failure with
/// `retry_decision`, when attempts from `attempt` on fail `fails` times and
/// the next attempt, if made, succeeds: the number of attempts made, the
/// delays slept between them, and whether it ended with the success.
pub open spec fn retry_run(config: RetryConfig, attempt: u32, fails: nat) -> (nat, Seq<
    Option<u64>,
>, bool)
    decreases fails,
{
    if fails == 0 {
        (1, Seq::empty(), true)
    } else {
        match retry_decision(config, attempt) {
            RetryDecision::GiveUp => (1, Seq::empty(), false),
            RetryDecision::RetryAfter { delay_ms } => {
                let rest = retry_run(config, (attempt + 1) as u32, (fails - 1) as nat);
                (rest.0 + 1, seq![delay_ms] + rest.1, rest.2)
            },
        }
    }
}

proof fn lemma_retry_run(config: RetryConfig, a: u32, k: nat)
    requires
        a <= config.max_retries,
    ensures
        ({
            let left = config.max_retries - a;
            let tries = if k <= left {
                k
            } else {
                left as nat
            };
            retry_run(config, a, k) == (
                tries + 1,
                Seq::new(tries, |i: int| delay_spec(config, (a + i) as u32)),
                k <= left,
            )
        }),
    decreases k,
{
    let left = config.max_retries - a;
    if k == 0 {
        assert(Seq::new(0, |i: int| delay_spec(config, (a + i) as u32)) =~= Seq::<
            Option<u64>,
        >::empty());
    } else if a == config.max_retries {
        assert(Seq::new(0, |i: int| delay_spec(config, (a + i) as u32)) =~= Seq::<
            Option<u64>,
        >::empty());
    } else {
        let b = (a + 1) as u32;
        lemma_retry_run(config, b, (k - 1) as nat);
        let tries = if k <= left {
            k
        } else {
            left as nat
        };
        let rest = Seq::new((tries - 1) as nat, |i: int| delay_spec(config, (b + i) as u32));
        assert(seq![delay_spec(config, a)] + rest =~= Seq::new(
            tries,
            |i: int| delay_spec(config, (a + i) as u32),
        ));
    }
}

/// An operation whose first `fails` attempts fail, and whose next attempt
/// would succeed, is tried `min(fails, max_retries) + 1` times; after failed
/// attempt `i` before the last it waits the delay for `i`, and never after
/// the last; it ends with the success exactly when `fails <= max_retries`,
/// else with the error of the last attempt.
pub proof fn law_retry_outcome(config: RetryConfig, fails: nat)
    ensures
        ({
            let m = config.max_retries as nat;
            let tries = if fails <= m {
                fails
            } else {
                m
            };
            let (calls, delays, succeeded) = retry_run(config, 0, fails);
            &&& calls == tries + 1
            &&& delays.len() == tries
            &&& forall|i: int| 0 <= i < tries ==> delays[i] == delay_spec(config, i as u32)
            &&& succeeded == (fails <= m)
        }),
{
    lemma_retry_run(config, 0, fails);
}

/// After failed attempt `a`, an operation is retried while `a` is below the
/// number of retries allowed, and given up on at the last one; the wait
/// before the retry is the fixed delay for a fixed backoff, the delay times
/// `a` for a linear one, and left to the caller for an exponential one.
pub proof fn law_retry_delays(config: RetryConfig, a: u32)
    ensures
        a >= config.max_retries ==> retry_decision(config, a) == RetryDecision::GiveUp,
        (a < config.max_retries && config.backoff is Fixed) ==> retry_decision(config, a)
            == (RetryDecision::RetryAfter { delay_ms: Some(config.delay_ms) }),
        (a < config.max_retries && config.backoff is Linear && config.delay_ms * a <= u64::MAX)
            ==> retry_decision(config, a) == (RetryDecision::RetryAfter {
            delay_ms: Some((config.delay_ms * a) as u64),
        }),
        (a < config.max_retries && config.backoff is Exponential) ==> retry_decision(config, a)
            == (RetryDecision::RetryAfter { delay_ms: None }),
{
}

} // verus!
