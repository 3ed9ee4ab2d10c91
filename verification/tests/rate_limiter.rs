use oanda_connector::rate_limiter::admission_of;
use oanda_connector::rate_limiter::permit_of;
use oanda_connector::rate_limiter::Admission;
use oanda_connector::rate_limiter::Quota;
use oanda_connector::Error;
use oanda_connector::RateLimitPermit;
use oanda_connector::RateLimiter;
use std::time::Duration;
use std::time::Instant;

fn wait(duration: Duration) {
    let start = Instant::now();
    while start.elapsed() < duration {
        std::hint::spin_loop();
    }
}

/// Asks until a permit is granted, waiting as long as the limiter says.
fn acquire(limiter: &RateLimiter) -> RateLimitPermit {
    loop {
        match limiter.poll() {
            Admission::Granted(permit) => return permit,
            Admission::RetryAfter(delay) => wait(delay),
        }
    }
}

#[test]
fn test_rate_limiter_basic() {
    let limiter = RateLimiter::new(10); // 10 req/sec

    let start = Instant::now();

    // Should immediately acquire 10 permits
    for _ in 0..10 {
        acquire(&limiter);
    }

    // Should be nearly instant (burst allowed)
    let elapsed = start.elapsed();
    assert!(elapsed < Duration::from_millis(100));
}

#[test]
fn test_rate_limiter_enforcement() {
    let limiter = RateLimiter::new(10); // 10 req/sec

    let start = Instant::now();

    // Exhaust burst capacity and go beyond
    for _ in 0..15 {
        acquire(&limiter);
    }

    // Should take at least 500ms (5 extra requests at 10/sec)
    let elapsed = start.elapsed();
    assert!(elapsed >= Duration::from_millis(400)); // Some tolerance
}

#[test]
fn requests_after_the_burst_are_spread_evenly() {
    let limiter = RateLimiter::new(10);

    let start = Instant::now();
    let mut timestamps = Vec::new();
    for _ in 0..20 {
        acquire(&limiter);
        timestamps.push(Instant::now());
    }
    let total_duration = start.elapsed();

    // Ten at once, then ten more at one every 100 ms.
    assert!(total_duration >= Duration::from_millis(900));
    assert!(total_duration <= Duration::from_millis(2500));
    for pair in timestamps[10..].windows(2) {
        assert!(pair[1] - pair[0] >= Duration::from_millis(90));
    }
}

#[test]
fn first_ten_of_fifteen_are_near_instant() {
    let limiter = RateLimiter::new(10);
    let start = Instant::now();
    for _ in 0..10 {
        acquire(&limiter);
    }
    let burst = start.elapsed();
    for _ in 0..5 {
        acquire(&limiter);
    }
    assert!(burst < Duration::from_millis(100));
    assert!(start.elapsed() >= Duration::from_millis(400));
}

#[test]
fn capacity_plus_k_requests_take_k_over_rate() {
    let limiter = RateLimiter::with_quota(Quota::new(4, 50).unwrap());
    let start = Instant::now();
    for _ in 0..4 {
        acquire(&limiter);
    }
    assert!(start.elapsed() < Duration::from_millis(100));
    for _ in 0..10 {
        acquire(&limiter);
    }
    assert!(start.elapsed() >= Duration::from_millis(180));
}

#[test]
fn test_try_acquire() {
    let limiter = RateLimiter::new(5);

    // Should succeed 5 times (burst capacity)
    for _ in 0..5 {
        assert!(limiter.try_acquire().is_some());
    }

    // Should fail on 6th attempt (rate exceeded)
    assert!(limiter.try_acquire().is_none());

    // Wait for rate window to recover
    wait(Duration::from_millis(300));

    // Should succeed again
    assert!(limiter.try_acquire().is_some());
}

#[test]
fn a_refusal_says_how_long_to_wait() {
    let limiter = RateLimiter::new(5);
    for _ in 0..5 {
        assert!(limiter.try_acquire().is_some());
    }
    match limiter.poll() {
        Admission::RetryAfter(delay) => {
            assert!(delay > Duration::from_millis(0));
            assert!(delay <= Duration::from_millis(200));
        }
        Admission::Granted(_) => panic!("a sixth permit within the burst"),
    }
}

#[test]
fn refused_requests_use_nothing_up() {
    let limiter = RateLimiter::with_quota(Quota::new(1, 5).unwrap());
    assert!(limiter.try_acquire().is_some());
    for _ in 0..1000 {
        assert!(limiter.try_acquire().is_none());
    }
    wait(Duration::from_millis(250));
    assert!(limiter.try_acquire().is_some());
}

#[test]
fn shared_limiters_draw_on_one_bucket() {
    let limiter = RateLimiter::new(3);
    let other = limiter.share();
    assert_eq!(other.quota(), limiter.quota());
    assert!(limiter.try_acquire().is_some());
    assert!(other.try_acquire().is_some());
    assert!(limiter.try_acquire().is_some());
    assert!(other.try_acquire().is_none());
    assert!(limiter.try_acquire().is_none());

    let separate = RateLimiter::new(3);
    assert!(separate.try_acquire().is_some());
}

#[test]
fn clones_draw_on_one_bucket() {
    let limiter = RateLimiter::new(2);
    let copy = limiter.clone();
    assert_eq!(copy.quota(), limiter.quota());
    assert!(copy.try_acquire().is_some());
    assert!(limiter.try_acquire().is_some());
    assert!(copy.try_acquire().is_none());
    assert!(limiter.try_acquire().is_none());
}

#[test]
fn quota_needs_positive_numbers() {
    assert_eq!(
        Quota::new(0, 10),
        Err(Error::ConfigError("Capacity must be greater than 0".to_string()))
    );
    assert_eq!(
        Quota::new(10, 0),
        Err(Error::ConfigError("Requests per second must be greater than 0".to_string()))
    );
    assert_eq!(
        Quota::new(0, 0),
        Err(Error::ConfigError("Capacity must be greater than 0".to_string()))
    );
    let quota = Quota::new(10, 2).unwrap();
    assert_eq!(quota.capacity(), 10);
    assert_eq!(quota.refill_rate_per_second(), 2);
    let even = Quota::per_second(7);
    assert_eq!(even.capacity(), 7);
    assert_eq!(even.refill_rate_per_second(), 7);
    assert_eq!(RateLimiter::new(7).quota(), even);
    assert_eq!(RateLimiter::with_quota(quota).quota(), quota);
}

#[test]
fn admission_of_an_answer() {
    assert!(matches!(admission_of(Ok(())), Admission::Granted(_)));
    match admission_of(Err(Duration::from_millis(40))) {
        Admission::RetryAfter(delay) => assert_eq!(delay, Duration::from_millis(40)),
        Admission::Granted(_) => panic!("a permit for a refusal"),
    }
    assert!(permit_of(admission_of(Ok(()))).is_some());
    assert!(permit_of(admission_of(Err(Duration::from_secs(1)))).is_none());
}

#[test]
fn permit_of_an_admission() {
    let limiter = RateLimiter::new(1);
    assert!(permit_of(limiter.poll()).is_some());
    assert!(permit_of(limiter.poll()).is_none());
    assert!(permit_of(Admission::RetryAfter(Duration::from_millis(5))).is_none());
}

#[test]
#[should_panic(expected = "requests_per_second must be greater than 0")]
fn test_zero_rate_panics() {
    let _ = RateLimiter::new(0);
}
