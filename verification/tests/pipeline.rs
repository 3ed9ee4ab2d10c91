use oanda_connector::backoff::Delay;
use oanda_connector::backoff::RetryPolicy;
use oanda_connector::classifier::AttemptOutcome;
use oanda_connector::classifier::AttemptResult;
use oanda_connector::classifier::HttpResponse;
use oanda_connector::classifier::ResponseBody;
use oanda_connector::error::ErrorKind;
use oanda_connector::error::TransportFailure;
use oanda_connector::pipeline::after_outcome;
use oanda_connector::pipeline::PipelineStep;
use oanda_connector::pipeline::RequestPipeline;
use oanda_connector::pipeline::RetryState;
use oanda_connector::rate_limiter::RateLimiter;
use oanda_connector::Error;

fn pipeline(enable_retries: bool, max_retries: u32) -> RequestPipeline {
    RequestPipeline::new(RetryPolicy::new(enable_retries, max_retries), RateLimiter::new(1000))
}

fn timeout() -> AttemptResult {
    AttemptResult::Failure(TransportFailure {
        timed_out: true,
        connect: false,
        message: "operation timed out".to_string(),
    })
}

fn refused() -> AttemptResult {
    AttemptResult::Failure(TransportFailure {
        timed_out: false,
        connect: true,
        message: "connection refused".to_string(),
    })
}

fn status(status: u16, retry_after: Option<&str>, body: &str) -> AttemptResult {
    AttemptResult::Response(HttpResponse {
        status,
        retry_after: retry_after.map(|value| value.as_bytes().to_vec()),
        body: ResponseBody::Text(body.to_string()),
    })
}

/// Runs one request whose attempts end as `attempts` says, and gives back
/// the result, the attempts made, the permits used and the delays waited.
fn run(
    pipeline: &RequestPipeline,
    attempts: Vec<AttemptResult>,
) -> (Result<String, Error>, usize, usize, Vec<Delay>) {
    let mut state = pipeline.begin(0);
    let mut made = 0;
    let mut permits = 0;
    let mut delays = Vec::new();
    for attempt in attempts {
        let permit = pipeline.limiter().try_acquire().expect("a permit");
        permits += 1;
        made += 1;
        assert_eq!(state.attempt_number(), made as u64);
        match pipeline.advance(state, permit, attempt) {
            PipelineStep::Finished(result) => return (result, made, permits, delays),
            PipelineStep::Retry { state: next, delay } => {
                delays.push(delay);
                state = next;
            }
        }
    }
    panic!("the request did not end");
}

#[test]
fn first_success_returns_the_payload() {
    let (result, made, permits, delays) = run(&pipeline(true, 3), vec![status(200, None, "{}")]);
    assert_eq!(result, Ok("{}".to_string()));
    assert_eq!(made, 1);
    assert_eq!(permits, 1);
    assert!(delays.is_empty());
}

#[test]
fn permanent_timeout_uses_max_retries_plus_one_attempts() {
    for max_retries in [0u32, 1, 3, 7] {
        let attempts = (0..20).map(|_| timeout()).collect();
        let (result, made, permits, delays) = run(&pipeline(true, max_retries), attempts);
        assert_eq!(made, max_retries as usize + 1);
        assert_eq!(permits, made);
        let error = result.unwrap_err();
        assert_eq!(error.kind(), ErrorKind::Timeout);
        assert!(matches!(error, Error::HttpError(_)));
        let expected: Vec<Delay> =
            (0..max_retries).map(|n| Delay::Milliseconds(100 << n)).collect();
        assert_eq!(delays, expected);
    }
}

#[test]
fn three_retries_use_four_permits() {
    let attempts = vec![refused(), refused(), refused(), status(200, None, "ok")];
    let (result, made, permits, delays) = run(&pipeline(true, 3), attempts);
    assert_eq!(result, Ok("ok".to_string()));
    assert_eq!(made, 4);
    assert_eq!(permits, 4);
    assert_eq!(
        delays,
        vec![Delay::Milliseconds(500), Delay::Milliseconds(1000), Delay::Milliseconds(2000)]
    );
}

#[test]
fn rate_limit_waits_as_long_as_the_server_says() {
    let pipeline = pipeline(true, 3);
    let permit = pipeline.limiter().try_acquire().unwrap();
    let step = pipeline.advance(pipeline.begin(5), permit, status(429, Some("60"), ""));
    match step {
        PipelineStep::Retry { state, delay } => {
            assert_eq!(delay, Delay::Seconds(60));
            assert_eq!(state.attempt_number(), 2);
            assert_eq!(state.last_kind(), Some(ErrorKind::RateLimitExceeded));
            assert_eq!(state.started_at(), 5);
        }
        other => panic!("unexpected step {:?}", other),
    }
}

#[test]
fn rate_limit_on_a_later_attempt_still_follows_the_header() {
    let attempts = vec![timeout(), timeout(), status(429, Some("9"), ""), status(200, None, "ok")];
    let (result, made, _, delays) = run(&pipeline(true, 5), attempts);
    assert_eq!(result, Ok("ok".to_string()));
    assert_eq!(made, 4);
    assert_eq!(
        delays,
        vec![Delay::Milliseconds(100), Delay::Milliseconds(200), Delay::Seconds(9)]
    );
}

#[test]
fn persistent_rate_limit_surfaces_the_last_failure() {
    let attempts = vec![
        status(429, Some("1"), ""),
        status(429, Some("2"), ""),
        status(429, Some("3"), ""),
        status(429, Some("4"), ""),
    ];
    let (result, made, _, delays) = run(&pipeline(true, 2), attempts);
    assert_eq!(result, Err(Error::RateLimitExceeded { retry_after_seconds: 3 }));
    assert_eq!(made, 3);
    assert_eq!(delays, vec![Delay::Seconds(1), Delay::Seconds(2)]);
}

#[test]
fn unauthorized_is_never_retried() {
    for (enable_retries, max_retries) in [(true, 3), (true, 0), (false, 3), (true, u32::MAX)] {
        let attempts = vec![status(401, None, "Unauthorized"), status(200, None, "ok")];
        let (result, made, permits, delays) = run(&pipeline(enable_retries, max_retries), attempts);
        assert_eq!(result, Err(Error::AuthenticationFailed));
        assert_eq!(made, 1);
        assert_eq!(permits, 1);
        assert!(delays.is_empty());
    }
}

#[test]
fn disabled_retries_return_after_one_attempt() {
    let failures = vec![
        timeout(),
        refused(),
        status(429, Some("60"), ""),
        status(500, None, ""),
        status(404, None, "EUR_XYZ"),
        status(401, None, ""),
    ];
    for failure in failures {
        let attempts = vec![failure.clone(), status(200, None, "ok")];
        let (result, made, permits, delays) = run(&pipeline(false, 3), attempts);
        assert!(result.is_err());
        assert_eq!(made, 1);
        assert_eq!(permits, 1);
        assert!(delays.is_empty());
    }
    let (result, _, _, _) = run(&pipeline(false, 3), vec![status(429, Some("60"), "")]);
    assert_eq!(result, Err(Error::RateLimitExceeded { retry_after_seconds: 60 }));
}

#[test]
fn server_errors_are_terminal_even_with_retries() {
    for code in [500u16, 503] {
        let attempts = vec![status(code, None, ""), status(200, None, "ok")];
        let (result, made, _, _) = run(&pipeline(true, 3), attempts);
        assert_eq!(made, 1);
        assert_eq!(result.unwrap_err().kind(), ErrorKind::ApiError);
    }
}

#[test]
fn after_outcome_follows_the_policy() {
    let policy = RetryPolicy::new(true, 1);
    let step = after_outcome(
        &policy,
        RetryState::begin(0),
        AttemptOutcome::RetryableFailure {
            error: Error::RateLimitExceeded { retry_after_seconds: 5 },
            hint: None,
        },
    );
    match step {
        PipelineStep::Retry { state, delay } => {
            assert_eq!(delay, Delay::Seconds(60));
            assert_eq!(state.attempt_number(), 2);
            let last = after_outcome(
                &policy,
                state,
                AttemptOutcome::RetryableFailure { error: Error::Timeout(10), hint: None },
            );
            assert!(matches!(last, PipelineStep::Finished(Err(Error::Timeout(10)))));
        }
        other => panic!("unexpected step {:?}", other),
    }
    let done = after_outcome(&policy, RetryState::begin(0), AttemptOutcome::Success("x".to_string()));
    assert!(matches!(done, PipelineStep::Finished(Ok(_))));
}

#[test]
fn pipeline_keeps_its_policy() {
    let pipeline = pipeline(true, 4);
    assert_eq!(pipeline.policy(), RetryPolicy::new(true, 4));
    assert_eq!(pipeline.limiter().quota().capacity(), 1000);
    let state = pipeline.begin(42);
    assert_eq!(state.attempt_number(), 1);
    assert_eq!(state.last_kind(), None);
    assert_eq!(state.started_at(), 42);
}
