//! Turns one finished HTTP attempt into what it means for the request.

use crate::error::Error;
use crate::error::ErrorView;
use crate::error::TransportFailure;
use crate::error::TransportFailureView;
use crate::text::parse_unsigned;
use crate::text::read_unsigned;
use vstd::prelude::*;
use vstd::string::StringExecFns;

verus! {

/// Seconds to wait after a rate-limit answer that names no usable delay.
pub const DEFAULT_RETRY_AFTER_SECONDS: u64 = 60;

/// Name of the header in which the server names a delay.
pub const RETRY_AFTER_HEADER: &'static str = "Retry-After";

/// The body of a response.
#[derive(Debug, Clone, PartialEq, Eq)]
pub enum ResponseBody {
    /// The body as text.
    Text(String),
    /// The body could not be read; the reader's message says why.
    Unreadable(String),
}

/// Mathematical value of a [`ResponseBody`].
pub enum ResponseBodyView {
    Text(Seq<char>),
    Unreadable(Seq<char>),
}

impl View for ResponseBody {
    type V = ResponseBodyView;

    open spec fn view(&self) -> ResponseBodyView {
        match self {
            ResponseBody::Text(text) => ResponseBodyView::Text(text@),
            ResponseBody::Unreadable(reason) => ResponseBodyView::Unreadable(reason@),
        }
    }
}

/// A completed HTTP response, reduced to what the connector reads of it.
#[derive(Debug, Clone, PartialEq, Eq)]
pub struct HttpResponse {
    /// The status code.
    pub status: u16,
    /// The raw value of the first `Retry-After` header, if there is one.
    pub retry_after: Option<Vec<u8>>,
    /// The body.
    pub body: ResponseBody,
}

/// Mathematical value of an [`HttpResponse`].
pub struct HttpResponseView {
    pub status: u16,
    pub retry_after: Option<Seq<u8>>,
    pub body: ResponseBodyView,
}

impl HttpResponseView {
    /// The text of the body; a body that could not be read counts as empty.
    pub open spec fn body_text(self) -> Seq<char> {
        match self.body {
            ResponseBodyView::Text(text) => text,
            ResponseBodyView::Unreadable(_) => Seq::empty(),
        }
    }
}

impl View for HttpResponse {
    type V = HttpResponseView;

    open spec fn view(&self) -> HttpResponseView {
        HttpResponseView {
            status: self.status,
            retry_after: match self.retry_after {
                Some(value) => Some(value@),
                None => None,
            },
            body: self.body@,
        }
    }
}

/// How one attempt ended: with a response, or without one.
#[derive(Debug, Clone, PartialEq, Eq)]
pub enum AttemptResult {
    /// The server answered.
    Response(HttpResponse),
    /// No response was obtained.
    Failure(TransportFailure),
}

/// Mathematical value of an [`AttemptResult`].
pub enum AttemptResultView {
    Response(HttpResponseView),
    Failure(TransportFailureView),
}

impl View for AttemptResult {
    type V = AttemptResultView;

    open spec fn view(&self) -> AttemptResultView {
        match self {
            AttemptResult::Response(response) => AttemptResultView::Response(response@),
            AttemptResult::Failure(failure) => AttemptResultView::Failure(failure@),
        }
    }
}

/// What an attempt means for the request it belongs to.
#[derive(Debug, Clone, PartialEq, Eq)]
pub enum AttemptOutcome {
    /// The payload arrived.
    Success(String),
    /// The attempt failed in a way that may pass; `hint` is the delay in
    /// seconds that the server asked for, where it asked for one.
    RetryableFailure { error: Error, hint: Option<u64> },
    /// The attempt failed for good.
    TerminalFailure(Error),
}

/// Mathematical value of an [`AttemptOutcome`].
pub enum AttemptOutcomeView {
    Success(Seq<char>),
    RetryableFailure { error: ErrorView, hint: Option<u64> },
    TerminalFailure(ErrorView),
}

impl View for AttemptOutcome {
    type V = AttemptOutcomeView;

    open spec fn view(&self) -> AttemptOutcomeView {
        match self {
            AttemptOutcome::Success(payload) => AttemptOutcomeView::Success(payload@),
            AttemptOutcome::RetryableFailure { error, hint } => AttemptOutcomeView::RetryableFailure {
                error: error@,
                hint: *hint,
            },
            AttemptOutcome::TerminalFailure(error) => AttemptOutcomeView::TerminalFailure(error@),
        }
    }
}

/// The delay in seconds that a `Retry-After` header asks for: the unsigned
/// decimal number it spells, and 60 where the header is absent or spells none
/// that fits in 64 bits.
pub open spec fn retry_after_seconds(header: Option<Seq<u8>>) -> u64 {
    match header {
        Some(value) => match parse_unsigned(value, u64::MAX as nat) {
            Some(seconds) => seconds as u64,
            None => DEFAULT_RETRY_AFTER_SECONDS,
        },
        None => DEFAULT_RETRY_AFTER_SECONDS,
    }
}

/// The error that a response with a status other than 200 stands for.
pub open spec fn status_error(response: HttpResponseView) -> ErrorView
    recommends
        response.status != 200,
{
    if response.status == 400 {
        ErrorView::ApiError { code: 400, message: response.body_text() }
    } else if response.status == 401 || response.status == 403 {
        ErrorView::AuthenticationFailed
    } else if response.status == 404 {
        ErrorView::ApiError { code: 404, message: "resource not found: "@ + response.body_text() }
    } else if response.status == 429 {
        ErrorView::RateLimitExceeded {
            retry_after_seconds: retry_after_seconds(response.retry_after),
        }
    } else if response.status == 500 {
        ErrorView::ApiError { code: 500, message: "OANDA server error"@ }
    } else if response.status == 503 {
        ErrorView::ApiError { code: 503, message: "OANDA service temporarily unavailable"@ }
    } else {
        ErrorView::ApiError { code: response.status, message: response.body_text() }
    }
}

/// What a response yields: on status 200 its body, or the error for a body
/// that could not be read; on any other status the error of that status.
pub open spec fn response_result(response: HttpResponseView) -> Result<Seq<char>, ErrorView> {
    if response.status == 200 {
        match response.body {
            ResponseBodyView::Text(text) => Ok(text),
            ResponseBodyView::Unreadable(reason) => Err(undecodable(reason)),
        }
    } else {
        Err(status_error(response))
    }
}

/// The outcome of an attempt that produced a response. Of all statuses only
/// 429 may be attempted again, with the delay the server named.
pub open spec fn classify_response(response: HttpResponseView) -> AttemptOutcomeView {
    match response_result(response) {
        Ok(payload) => AttemptOutcomeView::Success(payload),
        Err(error) => if response.status == 429 {
            AttemptOutcomeView::RetryableFailure {
                error,
                hint: Some(retry_after_seconds(response.retry_after)),
            }
        } else {
            AttemptOutcomeView::TerminalFailure(error)
        },
    }
}

/// The outcome of an attempt that produced no response: timeouts and
/// connection failures may be attempted again, other faults may not.
pub open spec fn classify_failure(failure: TransportFailureView) -> AttemptOutcomeView {
    if failure.timed_out || failure.connect {
        AttemptOutcomeView::RetryableFailure { error: ErrorView::HttpError(failure), hint: None }
    } else {
        AttemptOutcomeView::TerminalFailure(ErrorView::HttpError(failure))
    }
}

/// The outcome of an attempt.
pub open spec fn classify_attempt(attempt: AttemptResultView) -> AttemptOutcomeView {
    match attempt {
        AttemptResultView::Response(response) => classify_response(response),
        AttemptResultView::Failure(failure) => classify_failure(failure),
    }
}

/// The error that stands for a payload which arrived with status 200 and
/// could not be read or decoded; `reason` is the reader's or decoder's message.
pub open spec fn undecodable(reason: Seq<char>) -> ErrorView {
    ErrorView::ApiError { code: 0, message: "Failed to parse response: "@ + reason }
}

/// Reads the delay in seconds off a `Retry-After` header value.
pub fn read_retry_after(header: &Option<Vec<u8>>) -> (seconds: u64)
    ensures
        seconds == retry_after_seconds(
            match *header {
                Some(value) => Some(value@),
                None => None,
            },
        ),
{
    match header {
        Some(value) => match read_unsigned(value.as_slice(), u64::MAX) {
            Some(seconds) => seconds,
            None => DEFAULT_RETRY_AFTER_SECONDS,
        },
        None => DEFAULT_RETRY_AFTER_SECONDS,
    }
}

/// The text of a body; a body that could not be read counts as empty.
fn text_of_body(body: ResponseBody) -> (text: String)
    ensures
        text@ == match body {
            ResponseBody::Text(read) => read@,
            ResponseBody::Unreadable(_) => Seq::<char>::empty(),
        },
{
    match body {
        ResponseBody::Text(read) => read,
        ResponseBody::Unreadable(_) => String::new(),
    }
}

/// The error for a payload that could not be read or decoded.
fn undecodable_payload(reason: &str) -> (error: Error)
    ensures
        error@ == undecodable(reason@),
{
    Error::ApiError {
        code: 0,
        message: String::from_str("Failed to parse response: ").concat(reason),
    }
}

/// Builds the error of a response whose status is not 200.
fn error_of_status(response: HttpResponse) -> (error: Error)
    requires
        response.status != 200,
    ensures
        error@ == status_error(response@),
{
    let status = response.status;
    if status == 400 {
        Error::ApiError { code: 400, message: text_of_body(response.body) }
    } else if status == 401 || status == 403 {
        Error::AuthenticationFailed
    } else if status == 404 {
        Error::ApiError {
            code: 404,
            message: String::from_str("resource not found: ").concat(
                text_of_body(response.body).as_str(),
            ),
        }
    } else if status == 429 {
        Error::RateLimitExceeded { retry_after_seconds: read_retry_after(&response.retry_after) }
    } else if status == 500 {
        Error::ApiError { code: 500, message: String::from_str("OANDA server error") }
    } else if status == 503 {
        Error::ApiError {
            code: 503,
            message: String::from_str("OANDA service temporarily unavailable"),
        }
    } else {
        Error::ApiError { code: status, message: text_of_body(response.body) }
    }
}

/// Converts a completed response into its payload or its error.
pub fn handle_response(response: HttpResponse) -> (result: Result<String, Error>)
    ensures
        match result {
            Ok(body) => response_result(response@) == Ok::<Seq<char>, ErrorView>(body@),
            Err(error) => response_result(response@) == Err::<Seq<char>, ErrorView>(error@),
        },
{
    if response.status == 200 {
        match response.body {
            ResponseBody::Text(body) => Ok(body),
            ResponseBody::Unreadable(reason) => Err(undecodable_payload(reason.as_str())),
        }
    } else {
        Err(error_of_status(response))
    }
}

/// Classifies one finished attempt.
pub fn classify(attempt: AttemptResult) -> (outcome: AttemptOutcome)
    ensures
        outcome@ == classify_attempt(attempt@),
{
    match attempt {
        AttemptResult::Response(response) => {
            if response.status == 200 {
                match response.body {
                    ResponseBody::Text(body) => AttemptOutcome::Success(body),
                    ResponseBody::Unreadable(reason) => AttemptOutcome::TerminalFailure(
                        undecodable_payload(reason.as_str()),
                    ),
                }
            } else if response.status == 429 {
                let hint = read_retry_after(&response.retry_after);
                AttemptOutcome::RetryableFailure { error: error_of_status(response), hint: Some(hint) }
            } else {
                AttemptOutcome::TerminalFailure(error_of_status(response))
            }
        },
        AttemptResult::Failure(failure) => {
            if failure.timed_out || failure.connect {
                AttemptOutcome::RetryableFailure { error: Error::HttpError(failure), hint: None }
            } else {
                AttemptOutcome::TerminalFailure(Error::HttpError(failure))
            }
        },
    }
}

/// Gives a decoded payload back, or the error for one that could not be
/// decoded, with the decoder's message in it.
pub fn decoded<T>(payload: Result<T, String>) -> (result: Result<T, Error>)
    ensures
        match payload {
            Ok(value) => result == Ok::<T, Error>(value),
            Err(reason) => result matches Err(error) && error@ == undecodable(reason@),
        },
{
    match payload {
        Ok(value) => Ok(value),
        Err(reason) => Err(undecodable_payload(reason.as_str())),
    }
}

} // verus!
