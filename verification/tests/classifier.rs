use oanda_connector::classifier::classify;
use oanda_connector::classifier::decoded;
use oanda_connector::classifier::handle_response;
use oanda_connector::classifier::read_retry_after;
use oanda_connector::classifier::AttemptOutcome;
use oanda_connector::classifier::AttemptResult;
use oanda_connector::classifier::HttpResponse;
use oanda_connector::classifier::ResponseBody;
use oanda_connector::error::TransportFailure;
use oanda_connector::Error;

fn response(status: u16, retry_after: Option<&str>, body: &str) -> HttpResponse {
    HttpResponse {
        status,
        retry_after: retry_after.map(|value| value.as_bytes().to_vec()),
        body: ResponseBody::Text(body.to_string()),
    }
}

fn api_error(code: u16, message: &str) -> Error {
    Error::ApiError { code, message: message.to_string() }
}

#[test]
fn status_200_hands_the_body_over() {
    assert_eq!(handle_response(response(200, None, "{\"prices\":[]}")), Ok("{\"prices\":[]}".to_string()));
    assert_eq!(
        classify(AttemptResult::Response(response(200, None, "payload"))),
        AttemptOutcome::Success("payload".to_string())
    );
}

#[test]
fn status_400_carries_the_body() {
    assert_eq!(handle_response(response(400, None, "bad instrument")), Err(api_error(400, "bad instrument")));
    assert_eq!(
        classify(AttemptResult::Response(response(400, None, "bad instrument"))),
        AttemptOutcome::TerminalFailure(api_error(400, "bad instrument"))
    );
}

#[test]
fn status_401_and_403_are_authentication_failures() {
    assert_eq!(handle_response(response(401, None, "Unauthorized")), Err(Error::AuthenticationFailed));
    assert_eq!(handle_response(response(403, None, "Forbidden")), Err(Error::AuthenticationFailed));
    assert_eq!(
        classify(AttemptResult::Response(response(401, Some("5"), "Unauthorized"))),
        AttemptOutcome::TerminalFailure(Error::AuthenticationFailed)
    );
    assert_eq!(
        classify(AttemptResult::Response(response(403, None, ""))),
        AttemptOutcome::TerminalFailure(Error::AuthenticationFailed)
    );
}

#[test]
fn status_404_names_the_missing_resource() {
    let outcome = classify(AttemptResult::Response(response(404, None, "EUR_XYZ")));
    match outcome {
        AttemptOutcome::TerminalFailure(Error::ApiError { code, message }) => {
            assert_eq!(code, 404);
            assert!(message.contains("EUR_XYZ"));
            assert_eq!(message, "resource not found: EUR_XYZ");
        }
        other => panic!("unexpected outcome {:?}", other),
    }
    assert_eq!(handle_response(response(404, None, "")), Err(api_error(404, "resource not found: ")));
}

#[test]
fn status_429_reads_the_retry_after_header() {
    assert_eq!(
        handle_response(response(429, Some("60"), "")),
        Err(Error::RateLimitExceeded { retry_after_seconds: 60 })
    );
    assert_eq!(
        classify(AttemptResult::Response(response(429, Some("17"), "slow down"))),
        AttemptOutcome::RetryableFailure {
            error: Error::RateLimitExceeded { retry_after_seconds: 17 },
            hint: Some(17),
        }
    );
}

#[test]
fn status_429_defaults_to_sixty_seconds() {
    for header in [None, Some(""), Some("soon"), Some("1.5"), Some("-1"), Some(" 30"), Some("30s")] {
        assert_eq!(
            classify(AttemptResult::Response(response(429, header, ""))),
            AttemptOutcome::RetryableFailure {
                error: Error::RateLimitExceeded { retry_after_seconds: 60 },
                hint: Some(60),
            }
        );
    }
    let garbled = HttpResponse { status: 429, retry_after: Some(vec![0xff, 0x31]), body: ResponseBody::Text(String::new()) };
    assert_eq!(
        handle_response(garbled),
        Err(Error::RateLimitExceeded { retry_after_seconds: 60 })
    );
}

#[test]
fn retry_after_values() {
    assert_eq!(read_retry_after(&None), 60);
    assert_eq!(read_retry_after(&Some(b"0".to_vec())), 0);
    assert_eq!(read_retry_after(&Some(b"120".to_vec())), 120);
    assert_eq!(read_retry_after(&Some(b"+5".to_vec())), 5);
    assert_eq!(read_retry_after(&Some(b"18446744073709551615".to_vec())), u64::MAX);
    assert_eq!(read_retry_after(&Some(b"18446744073709551616".to_vec())), 60);
    assert_eq!(read_retry_after(&Some(b"Wed, 21 Oct 2015 07:28:00 GMT".to_vec())), 60);
}

#[test]
fn status_500_and_503_have_fixed_messages() {
    assert_eq!(handle_response(response(500, None, "stack trace")), Err(api_error(500, "OANDA server error")));
    assert_eq!(
        handle_response(response(503, Some("10"), "maintenance")),
        Err(api_error(503, "OANDA service temporarily unavailable"))
    );
    assert_eq!(
        classify(AttemptResult::Response(response(500, None, ""))),
        AttemptOutcome::TerminalFailure(api_error(500, "OANDA server error"))
    );
    assert_eq!(
        classify(AttemptResult::Response(response(503, None, ""))),
        AttemptOutcome::TerminalFailure(api_error(503, "OANDA service temporarily unavailable"))
    );
}

#[test]
fn other_statuses_carry_code_and_body() {
    for status in [100u16, 201, 204, 301, 302, 402, 405, 418, 422, 502, 504, 999] {
        assert_eq!(
            classify(AttemptResult::Response(response(status, Some("3"), "text"))),
            AttemptOutcome::TerminalFailure(api_error(status, "text"))
        );
    }
}

#[test]
fn unreadable_body_counts_as_empty_except_on_200() {
    let unread = |status: u16| HttpResponse {
        status,
        retry_after: None,
        body: ResponseBody::Unreadable("connection closed".to_string()),
    };
    assert_eq!(
        handle_response(unread(200)),
        Err(api_error(0, "Failed to parse response: connection closed"))
    );
    assert_eq!(
        classify(AttemptResult::Response(unread(200))),
        AttemptOutcome::TerminalFailure(api_error(0, "Failed to parse response: connection closed"))
    );
    assert_eq!(handle_response(unread(400)), Err(api_error(400, "")));
    assert_eq!(handle_response(unread(404)), Err(api_error(404, "resource not found: ")));
    assert_eq!(handle_response(unread(418)), Err(api_error(418, "")));
    assert_eq!(handle_response(unread(401)), Err(Error::AuthenticationFailed));
    assert_eq!(
        handle_response(unread(429)),
        Err(Error::RateLimitExceeded { retry_after_seconds: 60 })
    );
}

#[test]
fn transport_failures() {
    let timeout = TransportFailure { timed_out: true, connect: false, message: "timed out".to_string() };
    let refused = TransportFailure { timed_out: false, connect: true, message: "refused".to_string() };
    let both = TransportFailure { timed_out: true, connect: true, message: "connect timed out".to_string() };
    let other = TransportFailure { timed_out: false, connect: false, message: "redirect loop".to_string() };
    assert_eq!(
        classify(AttemptResult::Failure(timeout.clone())),
        AttemptOutcome::RetryableFailure { error: Error::HttpError(timeout), hint: None }
    );
    assert_eq!(
        classify(AttemptResult::Failure(refused.clone())),
        AttemptOutcome::RetryableFailure { error: Error::HttpError(refused), hint: None }
    );
    assert_eq!(
        classify(AttemptResult::Failure(both.clone())),
        AttemptOutcome::RetryableFailure { error: Error::HttpError(both), hint: None }
    );
    assert_eq!(
        classify(AttemptResult::Failure(other.clone())),
        AttemptOutcome::TerminalFailure(Error::HttpError(other))
    );
}

#[test]
fn undecodable_payload_is_an_api_error_with_code_zero() {
    let good: Result<u32, String> = Ok(7);
    assert_eq!(decoded(good), Ok(7));
    let bad: Result<u32, String> = Err("expected value at line 1 column 1".to_string());
    assert_eq!(
        decoded(bad),
        Err(api_error(0, "Failed to parse response: expected value at line 1 column 1"))
    );
}
