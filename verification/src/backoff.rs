//! Retry decisions and delays.

use crate::classifier::DEFAULT_RETRY_AFTER_SECONDS;
use crate::error::ErrorKind;
use vstd::arithmetic::power::lemma0_pow;
use vstd::arithmetic::power::lemma1_pow;
use vstd::arithmetic::power::lemma_pow0;
use vstd::arithmetic::power::lemma_pow_increases;
use vstd::arithmetic::power::lemma_pow_positive;
use vstd::arithmetic::power2::lemma2_to64_rest;
use vstd::arithmetic::power2::lemma_pow2;
use vstd::arithmetic::power::pow;
use vstd::prelude::*;

verus! {

/// Base delay of the timeout track, in milliseconds.
pub const TIMEOUT_BASE_DELAY_MS: u64 = 100;

/// Base delay of the connection track, in milliseconds.
pub const NETWORK_BASE_DELAY_MS: u64 = 500;

/// Factor by which both tracks grow from one retry to the next.
pub const BACKOFF_MULTIPLIER: u64 = 2;

/// How long to wait before the next attempt.
#[derive(Debug, Clone, Copy, PartialEq, Eq, Structural)]
pub enum Delay {
    /// A delay computed by a backoff track.
    Milliseconds(u64),
    /// A delay named by the server.
    Seconds(u64),
}

/// One backoff track: the delay before the `n`-th retry is
/// `base_delay_ms * multiplier^(n - 1)`, and at most `max_attempts` attempts
/// are made in all.
#[derive(Debug, Clone, Copy, PartialEq, Eq, Structural)]
pub struct BackoffPolicy {
    pub base_delay_ms: u64,
    pub multiplier: u64,
    pub max_attempts: u64,
}

/// What to do after a failure that may pass.
#[derive(Debug, Clone, Copy, PartialEq, Eq, Structural)]
pub enum RetryDecision {
    /// Wait, then attempt again.
    RetryAfter(Delay),
    /// Return the failure as final.
    GiveUp,
}

/// The exponent of the `retry`-th retry; a `retry` of zero counts as the first.
pub open spec fn growth_steps(retry: nat) -> nat {
    if retry >= 1 {
        (retry - 1) as nat
    } else {
        0
    }
}

/// The largest delay in milliseconds that can be handed out.
pub open spec fn capped_ms(delay: nat) -> u64 {
    if delay <= u64::MAX {
        delay as u64
    } else {
        u64::MAX
    }
}

impl BackoffPolicy {
    /// The delay in milliseconds before the `retry`-th retry, as a number
    /// without bound.
    pub open spec fn delay_ms(self, retry: nat) -> nat {
        (self.base_delay_ms * pow(self.multiplier as int, growth_steps(retry))) as nat
    }

    /// Whether another attempt may follow attempt number `attempt_number`.
    pub open spec fn allows_retry(self, attempt_number: nat) -> bool {
        attempt_number < self.max_attempts
    }

    /// The track for attempts that timed out.
    pub fn for_timeouts(max_retries: u32) -> (track: Self)
        ensures
            track == (BackoffPolicy {
                base_delay_ms: TIMEOUT_BASE_DELAY_MS,
                multiplier: BACKOFF_MULTIPLIER,
                max_attempts: (max_retries + 1) as u64,
            }),
    {
        BackoffPolicy {
            base_delay_ms: TIMEOUT_BASE_DELAY_MS,
            multiplier: BACKOFF_MULTIPLIER,
            max_attempts: max_retries as u64 + 1,
        }
    }

    /// The track for attempts whose connection failed.
    pub fn for_connection_failures(max_retries: u32) -> (track: Self)
        ensures
            track == (BackoffPolicy {
                base_delay_ms: NETWORK_BASE_DELAY_MS,
                multiplier: BACKOFF_MULTIPLIER,
                max_attempts: (max_retries + 1) as u64,
            }),
    {
        BackoffPolicy {
            base_delay_ms: NETWORK_BASE_DELAY_MS,
            multiplier: BACKOFF_MULTIPLIER,
            max_attempts: max_retries as u64 + 1,
        }
    }

    /// The delay in milliseconds before the `retry`-th retry. A delay too
    /// long for 64 bits comes out as the longest that fits.
    pub fn delay_before_retry(&self, retry: u64) -> (ms: u64)
        ensures
            ms == capped_ms(self.delay_ms(retry as nat)),
    {
        let steps: u64 = if retry >= 1 {
            retry - 1
        } else {
            0
        };
        let base = self.base_delay_ms;
        let factor = self.multiplier;
        if steps == 0 {
            proof {
                lemma_pow0(factor as int);
            }
            return base;
        }
        let ghost grown = pow(factor as int, steps as nat);
        if factor == 0 {
            proof {
                lemma0_pow(steps as nat);
                assert(base * grown == 0) by (nonlinear_arith)
                    requires
                        grown == 0,
                ;
            }
            return 0;
        }
        if factor == 1 {
            proof {
                lemma1_pow(steps as nat);
                assert(base * grown == base) by (nonlinear_arith)
                    requires
                        grown == 1,
                ;
            }
            return base;
        }
        if base == 0 {
            proof {
                assert(base * grown == 0) by (nonlinear_arith)
                    requires
                        base == 0,
                ;
            }
            return 0;
        }
        let mut value: u64 = base;
        let mut done: u64 = 0;
        proof {
            lemma_pow0(factor as int);
        }
        while done < steps
            invariant
                done <= steps,
                factor >= 2,
                base >= 1,
                steps == growth_steps(retry as nat),
                base == self.base_delay_ms,
                factor == self.multiplier,
                value == base * pow(factor as int, done as nat),
            decreases steps - done,
        {
            proof {
                pow_unfolds(factor as int, done as nat);
                assert(value * factor == base * pow(factor as int, (done + 1) as nat)) by (nonlinear_arith)
                    requires
                        value == base * pow(factor as int, done as nat),
                        pow(factor as int, (done + 1) as nat) == factor * pow(
                            factor as int,
                            done as nat,
                        ),
                ;
            }
            match value.checked_mul(factor) {
                Some(next) => {
                    value = next;
                    done = done + 1;
                },
                None => {
                    proof {
                        let reached = pow(factor as int, (done + 1) as nat);
                        let last = pow(factor as int, steps as nat);
                        lemma_pow_increases(factor as nat, (done + 1) as nat, steps as nat);
                        assert(base * reached <= base * last) by (nonlinear_arith)
                            requires
                                reached <= last,
                                base >= 1,
                        ;
                    }
                    return u64::MAX;
                },
            }
        }
        value
    }
}

/// One more step multiplies the power by its base.
proof fn pow_unfolds(b: int, e: nat)
    ensures
        pow(b, e + 1) == b * pow(b, e),
{
    reveal(pow);
}

/// The retry rules of one client: whether failures are retried at all, and the
/// track for each family of failures.
#[derive(Debug, Clone, Copy, PartialEq, Eq, Structural)]
pub struct RetryPolicy {
    /// Retries are made only where this is set.
    pub enable_retries: bool,
    /// Retries allowed after the first attempt.
    pub max_retries: u32,
    /// Track for attempts that timed out.
    pub timeout: BackoffPolicy,
    /// Track for attempts whose connection failed.
    pub network: BackoffPolicy,
}

impl RetryPolicy {
    /// The policy of a client configured with `enable_retries` and
    /// `max_retries`: 100 ms doubling for timeouts, 500 ms doubling for
    /// connection failures, and `max_retries + 1` attempts in all.
    pub open spec fn standard(enable_retries: bool, max_retries: u32) -> RetryPolicy {
        RetryPolicy {
            enable_retries,
            max_retries,
            timeout: BackoffPolicy {
                base_delay_ms: TIMEOUT_BASE_DELAY_MS,
                multiplier: BACKOFF_MULTIPLIER,
                max_attempts: (max_retries + 1) as u64,
            },
            network: BackoffPolicy {
                base_delay_ms: NETWORK_BASE_DELAY_MS,
                multiplier: BACKOFF_MULTIPLIER,
                max_attempts: (max_retries + 1) as u64,
            },
        }
    }

    /// What follows a failure of `kind` on attempt number `attempt_number`,
    /// where the server's hint, if any, is `hint` seconds.
    ///
    /// Nothing is retried where retries are off or the attempts are used up.
    /// Otherwise a timeout and a connection failure wait as their track says,
    /// a rate-limit signal waits as long as the server asked (60 seconds
    /// where it named no delay), and no other kind is retried.
    pub open spec fn decision(self, attempt_number: nat, kind: ErrorKind, hint: Option<u64>)
        -> RetryDecision {
        if !self.enable_retries {
            RetryDecision::GiveUp
        } else if kind == ErrorKind::Timeout {
            if self.timeout.allows_retry(attempt_number) {
                RetryDecision::RetryAfter(
                    Delay::Milliseconds(capped_ms(self.timeout.delay_ms(attempt_number))),
                )
            } else {
                RetryDecision::GiveUp
            }
        } else if kind == ErrorKind::NetworkError {
            if self.network.allows_retry(attempt_number) {
                RetryDecision::RetryAfter(
                    Delay::Milliseconds(capped_ms(self.network.delay_ms(attempt_number))),
                )
            } else {
                RetryDecision::GiveUp
            }
        } else if kind == ErrorKind::RateLimitExceeded {
            if attempt_number < self.max_retries + 1 {
                RetryDecision::RetryAfter(
                    Delay::Seconds(
                        match hint {
                            Some(seconds) => seconds,
                            None => DEFAULT_RETRY_AFTER_SECONDS,
                        },
                    ),
                )
            } else {
                RetryDecision::GiveUp
            }
        } else {
            RetryDecision::GiveUp
        }
    }

    /// The policy of a client configured with `enable_retries` and `max_retries`.
    pub fn new(enable_retries: bool, max_retries: u32) -> (policy: Self)
        ensures
            policy == RetryPolicy::standard(enable_retries, max_retries),
    {
        RetryPolicy {
            enable_retries,
            max_retries,
            timeout: BackoffPolicy::for_timeouts(max_retries),
            network: BackoffPolicy::for_connection_failures(max_retries),
        }
    }

    /// Decides what follows a failure of `kind` on attempt number
    /// `attempt_number`.
    pub fn decide(&self, attempt_number: u64, kind: ErrorKind, hint: Option<u64>) -> (decision:
        RetryDecision)
        ensures
            decision == self.decision(attempt_number as nat, kind, hint),
    {
        if !self.enable_retries {
            return RetryDecision::GiveUp;
        }
        match kind {
            ErrorKind::Timeout => {
                if attempt_number < self.timeout.max_attempts {
                    RetryDecision::RetryAfter(
                        Delay::Milliseconds(self.timeout.delay_before_retry(attempt_number)),
                    )
                } else {
                    RetryDecision::GiveUp
                }
            },
            ErrorKind::NetworkError => {
                if attempt_number < self.network.max_attempts {
                    RetryDecision::RetryAfter(
                        Delay::Milliseconds(self.network.delay_before_retry(attempt_number)),
                    )
                } else {
                    RetryDecision::GiveUp
                }
            },
            ErrorKind::RateLimitExceeded => {
                if attempt_number <= self.max_retries as u64 {
                    let seconds = match hint {
                        Some(seconds) => seconds,
                        None => DEFAULT_RETRY_AFTER_SECONDS,
                    };
                    RetryDecision::RetryAfter(Delay::Seconds(seconds))
                } else {
                    RetryDecision::GiveUp
                }
            },
            _ => RetryDecision::GiveUp,
        }
    }
}

/// On the timeout track of a standard policy the delay before the `retry`-th
/// retry is 100 ms doubled `retry - 1` times; on the connection track it is
/// five times as long.
pub proof fn standard_delays(enable_retries: bool, max_retries: u32, retry: nat)
    requires
        retry >= 1,
    ensures
        RetryPolicy::standard(enable_retries, max_retries).timeout.delay_ms(retry) == 100 * pow(
            2,
            (retry - 1) as nat,
        ),
        RetryPolicy::standard(enable_retries, max_retries).network.delay_ms(retry) == 500 * pow(
            2,
            (retry - 1) as nat,
        ),
        RetryPolicy::standard(enable_retries, max_retries).network.delay_ms(retry) == 5
            * RetryPolicy::standard(enable_retries, max_retries).timeout.delay_ms(retry),
{
    lemma_pow_positive(2, (retry - 1) as nat);
}

/// The delays of a standard policy are handed out uncut for the first 56
/// retries: only from the 57th retry on (connection track) or the 59th
/// (timeout track) is a delay too long for 64 bits.
pub proof fn standard_delays_fit(enable_retries: bool, max_retries: u32, retry: nat)
    requires
        1 <= retry <= 56,
    ensures
        capped_ms(RetryPolicy::standard(enable_retries, max_retries).timeout.delay_ms(retry))
            == 100 * pow(2, (retry - 1) as nat),
        capped_ms(RetryPolicy::standard(enable_retries, max_retries).network.delay_ms(retry))
            == 500 * pow(2, (retry - 1) as nat),
{
    let steps = (retry - 1) as nat;
    lemma_pow_positive(2, steps);
    lemma_pow_increases(2, steps, 55);
    lemma2_to64_rest();
    lemma_pow2(55);
}

} // verus!
