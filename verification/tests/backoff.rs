use oanda_connector::backoff::BackoffPolicy;
use oanda_connector::backoff::Delay;
use oanda_connector::backoff::RetryDecision;
use oanda_connector::backoff::RetryPolicy;
use oanda_connector::error::ErrorKind;

#[test]
fn standard_policy_has_two_tracks() {
    let policy = RetryPolicy::new(true, 3);
    assert!(policy.enable_retries);
    assert_eq!(policy.max_retries, 3);
    assert_eq!(policy.timeout, BackoffPolicy { base_delay_ms: 100, multiplier: 2, max_attempts: 4 });
    assert_eq!(policy.network, BackoffPolicy { base_delay_ms: 500, multiplier: 2, max_attempts: 4 });
    assert_eq!(BackoffPolicy::for_timeouts(0).max_attempts, 1);
    assert_eq!(BackoffPolicy::for_connection_failures(u32::MAX).max_attempts, 4_294_967_296);
}

#[test]
fn timeout_delays_double_from_100_ms() {
    let track = BackoffPolicy::for_timeouts(10);
    assert_eq!(track.delay_before_retry(1), 100);
    assert_eq!(track.delay_before_retry(2), 200);
    assert_eq!(track.delay_before_retry(3), 400);
    assert_eq!(track.delay_before_retry(4), 800);
    assert_eq!(track.delay_before_retry(11), 102_400);
}

#[test]
fn network_delays_double_from_500_ms() {
    let track = BackoffPolicy::for_connection_failures(10);
    assert_eq!(track.delay_before_retry(1), 500);
    assert_eq!(track.delay_before_retry(2), 1000);
    assert_eq!(track.delay_before_retry(3), 2000);
    assert_eq!(track.delay_before_retry(4), 4000);
    for retry in 1..20u64 {
        assert_eq!(
            track.delay_before_retry(retry),
            5 * BackoffPolicy::for_timeouts(10).delay_before_retry(retry)
        );
    }
}

#[test]
fn delays_stop_at_the_largest_value() {
    let track = BackoffPolicy::for_timeouts(100);
    assert_eq!(track.delay_before_retry(58), 100 * (1u64 << 57));
    assert_eq!(track.delay_before_retry(59), u64::MAX);
    assert_eq!(track.delay_before_retry(200), u64::MAX);
    assert_eq!(track.delay_before_retry(u64::MAX), u64::MAX);
    let network = BackoffPolicy::for_connection_failures(100);
    assert_eq!(network.delay_before_retry(56), 500 * (1u64 << 55));
    assert_eq!(network.delay_before_retry(57), u64::MAX);
}

#[test]
fn delays_of_other_tracks() {
    let flat = BackoffPolicy { base_delay_ms: 250, multiplier: 1, max_attempts: 5 };
    assert_eq!(flat.delay_before_retry(1), 250);
    assert_eq!(flat.delay_before_retry(1_000_000_000_000), 250);
    let once = BackoffPolicy { base_delay_ms: 250, multiplier: 0, max_attempts: 5 };
    assert_eq!(once.delay_before_retry(1), 250);
    assert_eq!(once.delay_before_retry(2), 0);
    assert_eq!(once.delay_before_retry(9), 0);
    let none = BackoffPolicy { base_delay_ms: 0, multiplier: 7, max_attempts: 5 };
    assert_eq!(none.delay_before_retry(1), 0);
    assert_eq!(none.delay_before_retry(90), 0);
    let triple = BackoffPolicy { base_delay_ms: 10, multiplier: 3, max_attempts: 5 };
    assert_eq!(triple.delay_before_retry(0), 10);
    assert_eq!(triple.delay_before_retry(4), 270);
}

#[test]
fn decisions_when_retries_are_on() {
    let policy = RetryPolicy::new(true, 3);
    assert_eq!(
        policy.decide(1, ErrorKind::Timeout, None),
        RetryDecision::RetryAfter(Delay::Milliseconds(100))
    );
    assert_eq!(
        policy.decide(3, ErrorKind::Timeout, None),
        RetryDecision::RetryAfter(Delay::Milliseconds(400))
    );
    assert_eq!(policy.decide(4, ErrorKind::Timeout, None), RetryDecision::GiveUp);
    assert_eq!(
        policy.decide(2, ErrorKind::NetworkError, None),
        RetryDecision::RetryAfter(Delay::Milliseconds(1000))
    );
    assert_eq!(policy.decide(4, ErrorKind::NetworkError, None), RetryDecision::GiveUp);
    assert_eq!(
        policy.decide(1, ErrorKind::RateLimitExceeded, Some(60)),
        RetryDecision::RetryAfter(Delay::Seconds(60))
    );
    assert_eq!(
        policy.decide(3, ErrorKind::RateLimitExceeded, Some(7)),
        RetryDecision::RetryAfter(Delay::Seconds(7))
    );
    assert_eq!(
        policy.decide(2, ErrorKind::RateLimitExceeded, None),
        RetryDecision::RetryAfter(Delay::Seconds(60))
    );
    assert_eq!(policy.decide(4, ErrorKind::RateLimitExceeded, Some(1)), RetryDecision::GiveUp);
}

#[test]
fn other_kinds_are_never_retried() {
    let policy = RetryPolicy::new(true, 3);
    for kind in [
        ErrorKind::TransportError,
        ErrorKind::ApiError,
        ErrorKind::AuthenticationFailed,
        ErrorKind::InvalidConfiguration,
        ErrorKind::DeserializationError,
        ErrorKind::InvalidInstrument,
        ErrorKind::InvalidGranularity,
        ErrorKind::InvalidDateRange,
        ErrorKind::InsufficientBalance,
    ] {
        assert_eq!(policy.decide(1, kind, Some(1)), RetryDecision::GiveUp);
    }
}

#[test]
fn nothing_is_retried_when_retries_are_off() {
    let policy = RetryPolicy::new(false, 3);
    for kind in [ErrorKind::Timeout, ErrorKind::NetworkError, ErrorKind::RateLimitExceeded] {
        assert_eq!(policy.decide(1, kind, Some(60)), RetryDecision::GiveUp);
    }
    let none = RetryPolicy::new(true, 0);
    assert_eq!(none.decide(1, ErrorKind::Timeout, None), RetryDecision::GiveUp);
    assert_eq!(none.decide(1, ErrorKind::RateLimitExceeded, Some(1)), RetryDecision::GiveUp);
}
