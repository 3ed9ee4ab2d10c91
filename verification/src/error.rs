//! Error taxonomy of the connector.

use crate::text::decimal_digits;
use crate::text::decimal_text;
use vstd::prelude::*;
use vstd::string::StringExecFns;

verus! {

/// What is known of an attempt that ended without an HTTP response.
#[derive(Debug, Clone, PartialEq, Eq)]
pub struct TransportFailure {
    /// The attempt ran into the per-attempt timeout.
    pub timed_out: bool,
    /// The connection could not be established (refused, reset, DNS, TLS handshake).
    pub connect: bool,
    /// The transport's own description of the fault.
    pub message: String,
}

/// Mathematical value of a [`TransportFailure`].
pub struct TransportFailureView {
    pub timed_out: bool,
    pub connect: bool,
    pub message: Seq<char>,
}

impl View for TransportFailure {
    type V = TransportFailureView;

    open spec fn view(&self) -> TransportFailureView {
        TransportFailureView {
            timed_out: self.timed_out,
            connect: self.connect,
            message: self.message@,
        }
    }
}

/// The kinds of failure a caller can tell apart.
#[derive(Debug, Clone, Copy, PartialEq, Eq, Structural)]
pub enum ErrorKind {
    /// A transport fault that is neither a timeout nor a connection failure.
    TransportError,
    /// The attempt timed out.
    Timeout,
    /// The connection could not be established.
    NetworkError,
    /// The server answered and rejected the request.
    ApiError,
    /// The credentials were not accepted.
    AuthenticationFailed,
    /// The server asked the client to slow down.
    RateLimitExceeded,
    /// The configuration is not usable.
    InvalidConfiguration,
    /// A payload arrived but could not be decoded.
    DeserializationError,
    /// The instrument asked for is not known.
    InvalidInstrument,
    /// The granularity asked for is not known.
    InvalidGranularity,
    /// The date range asked for is not usable.
    InvalidDateRange,
    /// The account cannot cover what was asked for.
    InsufficientBalance,
}

impl ErrorKind {
    /// Whether a failure of this kind may be attempted again: timeouts,
    /// connection failures and rate-limit signals are, nothing else is.
    pub open spec fn retryable(self) -> bool {
        self == ErrorKind::Timeout || self == ErrorKind::NetworkError || self
            == ErrorKind::RateLimitExceeded
    }

    /// Executable form of [`ErrorKind::retryable`].
    pub fn is_retryable(self) -> (retryable: bool)
        ensures
            retryable == self.retryable(),
    {
        match self {
            ErrorKind::Timeout => true,
            ErrorKind::NetworkError => true,
            ErrorKind::RateLimitExceeded => true,
            _ => false,
        }
    }
}

/// Errors of the connector.
#[derive(Debug, Clone, PartialEq, Eq)]
pub enum Error {
    /// The HTTP attempt ended without a response.
    HttpError(TransportFailure),
    /// The server rejected the request; `code` is the HTTP status, or 0 where
    /// a response could not be decoded.
    ApiError { code: u16, message: String },
    /// The server asked for a pause of `retry_after_seconds`.
    RateLimitExceeded { retry_after_seconds: u64 },
    /// No such instrument.
    InvalidInstrument(String),
    /// No such granularity.
    InvalidGranularity(String),
    /// Invalid API key or account ID.
    AuthenticationFailed,
    /// No answer within the given number of seconds.
    Timeout(u64),
    /// A payload could not be decoded.
    DeserializationError(String),
    /// The configuration was refused.
    ConfigError(String),
    /// The range from `start` to `end` is not usable.
    InvalidDateRange { start: String, end: String },
    /// The account holds `available` where `required` is needed; both are
    /// kept as decimal text.
    InsufficientBalance { required: String, available: String },
}

/// Mathematical value of an [`Error`].
pub enum ErrorView {
    HttpError(TransportFailureView),
    ApiError { code: u16, message: Seq<char> },
    RateLimitExceeded { retry_after_seconds: u64 },
    InvalidInstrument(Seq<char>),
    InvalidGranularity(Seq<char>),
    AuthenticationFailed,
    Timeout(u64),
    DeserializationError(Seq<char>),
    ConfigError(Seq<char>),
    InvalidDateRange { start: Seq<char>, end: Seq<char> },
    InsufficientBalance { required: Seq<char>, available: Seq<char> },
}

impl View for Error {
    type V = ErrorView;

    open spec fn view(&self) -> ErrorView {
        match self {
            Error::HttpError(failure) => ErrorView::HttpError(failure@),
            Error::ApiError { code, message } => ErrorView::ApiError {
                code: *code,
                message: message@,
            },
            Error::RateLimitExceeded { retry_after_seconds } => ErrorView::RateLimitExceeded {
                retry_after_seconds: *retry_after_seconds,
            },
            Error::InvalidInstrument(name) => ErrorView::InvalidInstrument(name@),
            Error::InvalidGranularity(name) => ErrorView::InvalidGranularity(name@),
            Error::AuthenticationFailed => ErrorView::AuthenticationFailed,
            Error::Timeout(seconds) => ErrorView::Timeout(*seconds),
            Error::DeserializationError(message) => ErrorView::DeserializationError(message@),
            Error::ConfigError(message) => ErrorView::ConfigError(message@),
            Error::InvalidDateRange { start, end } => ErrorView::InvalidDateRange {
                start: start@,
                end: end@,
            },
            Error::InsufficientBalance { required, available } => ErrorView::InsufficientBalance {
                required: required@,
                available: available@,
            },
        }
    }
}

impl ErrorView {
    /// The kind a failure belongs to. A transport fault is a timeout where it
    /// timed out, else a network error where the connection failed, else a
    /// plain transport error.
    pub open spec fn kind(self) -> ErrorKind {
        match self {
            ErrorView::HttpError(failure) => if failure.timed_out {
                ErrorKind::Timeout
            } else if failure.connect {
                ErrorKind::NetworkError
            } else {
                ErrorKind::TransportError
            },
            ErrorView::ApiError { .. } => ErrorKind::ApiError,
            ErrorView::RateLimitExceeded { .. } => ErrorKind::RateLimitExceeded,
            ErrorView::InvalidInstrument(_) => ErrorKind::InvalidInstrument,
            ErrorView::InvalidGranularity(_) => ErrorKind::InvalidGranularity,
            ErrorView::AuthenticationFailed => ErrorKind::AuthenticationFailed,
            ErrorView::Timeout(_) => ErrorKind::Timeout,
            ErrorView::DeserializationError(_) => ErrorKind::DeserializationError,
            ErrorView::ConfigError(_) => ErrorKind::InvalidConfiguration,
            ErrorView::InvalidDateRange { .. } => ErrorKind::InvalidDateRange,
            ErrorView::InsufficientBalance { .. } => ErrorKind::InsufficientBalance,
        }
    }

    /// The message shown to a person.
    pub open spec fn text(self) -> Seq<char> {
        match self {
            ErrorView::HttpError(failure) => "HTTP request failed: "@ + failure.message,
            ErrorView::ApiError { code, message } => "OANDA API error "@ + decimal_digits(
                code as nat,
            ) + ": "@ + message,
            ErrorView::RateLimitExceeded {
                retry_after_seconds,
            } => "Rate limit exceeded, retry after "@ + decimal_digits(retry_after_seconds as nat)
                + "s"@,
            ErrorView::InvalidInstrument(name) => "Invalid instrument: "@ + name,
            ErrorView::InvalidGranularity(name) => "Invalid granularity: "@ + name,
            ErrorView::AuthenticationFailed => "Authentication failed: invalid API key or account ID"@,
            ErrorView::Timeout(seconds) => "Network timeout after "@ + decimal_digits(
                seconds as nat,
            ) + "s"@,
            ErrorView::DeserializationError(message) => "Deserialization error: "@ + message,
            ErrorView::ConfigError(message) => "Configuration error: "@ + message,
            ErrorView::InvalidDateRange { start, end } => "Invalid date range: start="@ + start
                + ", end="@ + end,
            ErrorView::InsufficientBalance {
                required,
                available,
            } => "Insufficient account balance: required="@ + required + ", available="@
                + available,
        }
    }
}

impl Error {
    /// The kind of this error.
    pub fn kind(&self) -> (kind: ErrorKind)
        ensures
            kind == self@.kind(),
    {
        match self {
            Error::HttpError(failure) => {
                if failure.timed_out {
                    ErrorKind::Timeout
                } else if failure.connect {
                    ErrorKind::NetworkError
                } else {
                    ErrorKind::TransportError
                }
            },
            Error::ApiError { .. } => ErrorKind::ApiError,
            Error::RateLimitExceeded { .. } => ErrorKind::RateLimitExceeded,
            Error::InvalidInstrument(_) => ErrorKind::InvalidInstrument,
            Error::InvalidGranularity(_) => ErrorKind::InvalidGranularity,
            Error::AuthenticationFailed => ErrorKind::AuthenticationFailed,
            Error::Timeout(_) => ErrorKind::Timeout,
            Error::DeserializationError(_) => ErrorKind::DeserializationError,
            Error::ConfigError(_) => ErrorKind::InvalidConfiguration,
            Error::InvalidDateRange { .. } => ErrorKind::InvalidDateRange,
            Error::InsufficientBalance { .. } => ErrorKind::InsufficientBalance,
        }
    }

    /// Whether the error may go away when the request is made again.
    pub fn is_retryable(&self) -> (retryable: bool)
        ensures
            retryable == self@.kind().retryable(),
    {
        self.kind().is_retryable()
    }

    /// Whether the error is about the credentials.
    pub fn is_auth_error(&self) -> (auth: bool)
        ensures
            auth == (self@ == ErrorView::AuthenticationFailed),
    {
        match self {
            Error::AuthenticationFailed => true,
            _ => false,
        }
    }

    /// The message shown to a person.
    pub fn to_string(&self) -> (text: String)
        ensures
            text@ == self@.text(),
    {
        match self {
            Error::HttpError(failure) => {
                String::from_str("HTTP request failed: ").concat(failure.message.as_str())
            },
            Error::ApiError { code, message } => {
                let mut text = String::from_str("OANDA API error ");
                text.append(decimal_text(*code as u64).as_str());
                text.append(": ");
                text.append(message.as_str());
                text
            },
            Error::RateLimitExceeded { retry_after_seconds } => {
                let mut text = String::from_str("Rate limit exceeded, retry after ");
                text.append(decimal_text(*retry_after_seconds).as_str());
                text.append("s");
                text
            },
            Error::InvalidInstrument(name) => {
                String::from_str("Invalid instrument: ").concat(name.as_str())
            },
            Error::InvalidGranularity(name) => {
                String::from_str("Invalid granularity: ").concat(name.as_str())
            },
            Error::AuthenticationFailed => {
                String::from_str("Authentication failed: invalid API key or account ID")
            },
            Error::Timeout(seconds) => {
                let mut text = String::from_str("Network timeout after ");
                text.append(decimal_text(*seconds).as_str());
                text.append("s");
                text
            },
            Error::DeserializationError(message) => {
                String::from_str("Deserialization error: ").concat(message.as_str())
            },
            Error::ConfigError(message) => {
                String::from_str("Configuration error: ").concat(message.as_str())
            },
            Error::InvalidDateRange { start, end } => {
                let mut text = String::from_str("Invalid date range: start=");
                text.append(start.as_str());
                text.append(", end=");
                text.append(end.as_str());
                text
            },
            Error::InsufficientBalance { required, available } => {
                let mut text = String::from_str("Insufficient account balance: required=");
                text.append(required.as_str());
                text.append(", available=");
                text.append(available.as_str());
                text
            },
        }
    }
}

} // verus!
