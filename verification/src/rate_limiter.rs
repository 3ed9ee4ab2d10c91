//! The rate limiter that bounds how many requests start per unit of time.
//!
//! The bookkeeping is done by the `governor` crate (a generic cell rate
//! algorithm with continuous refill). Whether a permit is granted depends on
//! the clock, so no contract here says when one is.

use crate::error::Error;
use crate::error::ErrorView;
use governor::clock::Clock;
use std::sync::Arc;
use std::time::Duration;
use vstd::prelude::*;
use vstd::string::StringExecFns;

verus! {

/// How many requests may start at once, and how fast that allowance refills.
/// Both numbers are positive.
#[derive(Debug, Clone, Copy, PartialEq, Eq)]
pub struct Quota {
    capacity: u32,
    refill_rate_per_second: u32,
}

/// Mathematical value of a [`Quota`].
pub struct QuotaView {
    pub capacity: nat,
    pub refill_rate_per_second: nat,
}

impl View for Quota {
    type V = QuotaView;

    closed spec fn view(&self) -> QuotaView {
        QuotaView {
            capacity: self.capacity as nat,
            refill_rate_per_second: self.refill_rate_per_second as nat,
        }
    }
}

/// What `Quota::new` answers for a given pair of numbers.
pub open spec fn quota_of(capacity: u32, refill_rate_per_second: u32) -> Result<
    QuotaView,
    ErrorView,
> {
    if capacity == 0 {
        Err(ErrorView::ConfigError("Capacity must be greater than 0"@))
    } else if refill_rate_per_second == 0 {
        Err(ErrorView::ConfigError("Requests per second must be greater than 0"@))
    } else {
        Ok(
            QuotaView {
                capacity: capacity as nat,
                refill_rate_per_second: refill_rate_per_second as nat,
            },
        )
    }
}

impl Quota {
    #[verifier::type_invariant]
    spec fn positive(self) -> bool {
        self.capacity > 0 && self.refill_rate_per_second > 0
    }

    /// A quota of `capacity` requests at once, refilled at
    /// `refill_rate_per_second`; refused where either is zero.
    pub fn new(capacity: u32, refill_rate_per_second: u32) -> (result: Result<Quota, Error>)
        ensures
            match result {
                Ok(quota) => quota_of(capacity, refill_rate_per_second) == Ok::<
                    QuotaView,
                    ErrorView,
                >(quota@),
                Err(error) => quota_of(capacity, refill_rate_per_second) == Err::<
                    QuotaView,
                    ErrorView,
                >(error@),
            },
    {
        if capacity == 0 {
            Err(Error::ConfigError(String::from_str("Capacity must be greater than 0")))
        } else if refill_rate_per_second == 0 {
            Err(Error::ConfigError(String::from_str("Requests per second must be greater than 0")))
        } else {
            Ok(Quota { capacity, refill_rate_per_second })
        }
    }

    /// The quota that lets `requests_per_second` requests start at once and
    /// refills at the same rate.
    pub fn per_second(requests_per_second: u32) -> (quota: Quota)
        requires
            requests_per_second > 0,
        ensures
            quota@ == (QuotaView {
                capacity: requests_per_second as nat,
                refill_rate_per_second: requests_per_second as nat,
            }),
    {
        Quota { capacity: requests_per_second, refill_rate_per_second: requests_per_second }
    }

    /// Requests that may start at once.
    pub fn capacity(&self) -> (capacity: u32)
        ensures
            capacity == self@.capacity,
            capacity > 0,
    {
        proof {
            use_type_invariant(self);
        }
        self.capacity
    }

    /// Permits that become available again per second.
    pub fn refill_rate_per_second(&self) -> (rate: u32)
        ensures
            rate == self@.refill_rate_per_second,
            rate > 0,
    {
        proof {
            use_type_invariant(self);
        }
        self.refill_rate_per_second
    }
}

/// One admitted request slot. A permit is handed out by a [`RateLimiter`] and
/// used up by the attempt it was acquired for.
#[derive(Debug)]
pub struct RateLimitPermit {
    _private: (),
}

/// The limiter's answer to one request for admission.
#[derive(Debug)]
pub enum Admission {
    /// The request may start now.
    Granted(RateLimitPermit),
    /// No permit is available; asking again makes sense after this long.
    RetryAfter(Duration),
}

/// A direct `governor::RateLimiter` on governor's default clock, together with
/// a copy of that clock, shared by all clones of one [`RateLimiter`]. The
/// limiter's type is bounded by traits of governor's own, so it is kept
/// behind this struct, which hides it from the verifier. Only the three
/// functions below look inside.
#[verifier::external_body]
pub struct Bucket {
    shared: Arc<(governor::DefaultDirectRateLimiter, governor::clock::DefaultClock)>,
}

/// The quota that a bucket was opened with: the burst size and the rate that
/// were handed to governor when its limiter was made.
pub uninterp spec fn bucket_quota(bucket: Bucket) -> QuotaView;

/// Calls `governor::Quota::per_second` with `refill_rate_per_second`, then
/// `allow_burst` with `capacity`, and `governor::RateLimiter::direct_with_clock`
/// on a fresh default clock. The zero values, which `NonZeroU32` cannot hold,
/// are left out. The claim is that the bucket was opened with these two
/// numbers; nothing is claimed of what it will answer.
#[verifier::external_body]
fn open_bucket(capacity: u32, refill_rate_per_second: u32) -> (bucket: Bucket)
    requires
        capacity > 0,
        refill_rate_per_second > 0,
    ensures
        bucket_quota(bucket) == (QuotaView {
            capacity: capacity as nat,
            refill_rate_per_second: refill_rate_per_second as nat,
        }),
{
    let clock = governor::clock::DefaultClock::default();
    let rate = std::num::NonZeroU32::new(refill_rate_per_second)
        .expect("requests_per_second must be greater than 0");
    let burst = std::num::NonZeroU32::new(capacity).expect("capacity must be greater than 0");
    let quota = governor::Quota::per_second(rate).allow_burst(burst);
    Bucket { shared: Arc::new((governor::RateLimiter::direct_with_clock(quota, &clock), clock)) }
}

/// Calls `check` of `governor::RateLimiter`, and on a refusal
/// `governor::NotUntil::wait_time_from` with the clock's `now`. The answer
/// depends on the time, so nothing is claimed of it.
#[verifier::external_body]
fn ask_bucket(bucket: &Bucket) -> (answer: Result<(), Duration>) {
    match bucket.shared.0.check() {
        Ok(()) => Ok(()),
        Err(refusal) => Err(refusal.wait_time_from(bucket.shared.1.now())),
    }
}

/// Calls `Arc::clone`, which hands out another pointer to the same limiter
/// and clock: the result is the same bucket, not a second one.
#[verifier::external_body]
fn share_bucket(bucket: &Bucket) -> (shared: Bucket)
    ensures
        shared == *bucket,
{
    Bucket { shared: Arc::clone(&bucket.shared) }
}

/// Token-bucket rate limiter. Limiters made by `share` draw on one bucket.
pub struct RateLimiter {
    quota: Quota,
    bucket: Bucket,
}

impl RateLimiter {
    #[verifier::type_invariant]
    spec fn records_its_quota(self) -> bool {
        self.quota@ == bucket_quota(self.bucket)
    }

    /// The quota that the limiter's bucket was opened with.
    pub closed spec fn quota_view(&self) -> QuotaView {
        bucket_quota(self.bucket)
    }

    /// Whether this limiter and `other` draw on one and the same bucket.
    pub closed spec fn shares_bucket_with(&self, other: &RateLimiter) -> bool {
        self.bucket == other.bucket
    }

    /// A limiter that admits `requests_per_second` requests at once and as
    /// many per second thereafter.
    pub fn new(requests_per_second: u32) -> (limiter: Self)
        requires
            requests_per_second > 0,
        ensures
            limiter.quota_view() == (QuotaView {
                capacity: requests_per_second as nat,
                refill_rate_per_second: requests_per_second as nat,
            }),
    {
        RateLimiter::with_quota(Quota::per_second(requests_per_second))
    }

    /// A limiter for `quota`.
    pub fn with_quota(quota: Quota) -> (limiter: Self)
        ensures
            limiter.quota_view() == quota@,
    {
        let bucket = open_bucket(quota.capacity(), quota.refill_rate_per_second());
        RateLimiter { quota, bucket }
    }

    /// The quota the limiter was made with.
    pub fn quota(&self) -> (quota: Quota)
        ensures
            quota@ == self.quota_view(),
    {
        proof {
            use_type_invariant(self);
        }
        self.quota
    }

    /// A limiter that draws on the same bucket as this one.
    pub fn share(&self) -> (limiter: Self)
        ensures
            limiter.shares_bucket_with(self),
            limiter.quota_view() == self.quota_view(),
    {
        proof {
            use_type_invariant(self);
        }
        RateLimiter { quota: self.quota, bucket: share_bucket(&self.bucket) }
    }

    /// Asks for admission once, without waiting. A refusal says how long to
    /// wait before asking again; it uses up nothing.
    pub fn poll(&self) -> (admission: Admission) {
        admission_of(ask_bucket(&self.bucket))
    }

    /// Asks for admission once, without waiting.
    pub fn try_acquire(&self) -> (permit: Option<RateLimitPermit>) {
        permit_of(self.poll())
    }
}

impl Clone for RateLimiter {
    /// A limiter that draws on the same bucket as this one.
    fn clone(&self) -> (limiter: Self)
        ensures
            limiter.shares_bucket_with(self),
            limiter.quota_view() == self.quota_view(),
    {
        self.share()
    }
}

/// The admission that an answer of the bucket stands for: a permit where the
/// bucket agreed, else the wait that it named.
pub fn admission_of(answer: Result<(), Duration>) -> (admission: Admission)
    ensures
        match answer {
            Ok(_) => admission is Granted,
            Err(wait) => admission == Admission::RetryAfter(wait),
        },
{
    match answer {
        Ok(_) => Admission::Granted(RateLimitPermit { _private: () }),
        Err(wait) => Admission::RetryAfter(wait),
    }
}

/// The permit of an admission, if it holds one.
pub fn permit_of(admission: Admission) -> (permit: Option<RateLimitPermit>)
    ensures
        match admission {
            Admission::Granted(granted) => permit == Some(granted),
            Admission::RetryAfter(_) => permit is None,
        },
{
    match admission {
        Admission::Granted(granted) => Some(granted),
        Admission::RetryAfter(_) => None,
    }
}

} // verus!
