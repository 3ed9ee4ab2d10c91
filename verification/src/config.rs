//! Configuration of the connector.

use crate::error::Error;
use crate::error::ErrorView;
use crate::text::parse_unsigned;
use crate::text::read_unsigned;
use crate::text::same_text;
use std::time::Duration;
use vstd::prelude::*;
use vstd::string::StringExecFns;
use vstd::utf8::encode_utf8;

verus! {

/// Base URL of the practice environment.
pub const PRACTICE_URL: &'static str = "https://api-fxpractice.oanda.com";

/// Base URL of the live environment.
pub const LIVE_URL: &'static str = "https://api-fxtrade.oanda.com";

/// Settings of one client.
#[derive(Debug, Clone, PartialEq, Eq)]
pub struct OandaConfig {
    /// API key, sent as a bearer token.
    pub api_key: String,
    /// Account ID.
    pub account_id: String,
    /// Practice account (`true`) or live account (`false`).
    pub practice: bool,
    /// Base URL; where absent, it follows from `practice`.
    pub base_url: Option<String>,
    /// Timeout of one HTTP attempt, in seconds.
    pub timeout_seconds: u64,
    /// Requests that may start per second.
    pub requests_per_second: u32,
    /// Whether failed attempts are retried.
    pub enable_retries: bool,
    /// Retries allowed after the first attempt.
    pub max_retries: u32,
}

/// Mathematical value of an [`OandaConfig`].
pub struct OandaConfigView {
    pub api_key: Seq<char>,
    pub account_id: Seq<char>,
    pub practice: bool,
    pub base_url: Option<Seq<char>>,
    pub timeout_seconds: u64,
    pub requests_per_second: u32,
    pub enable_retries: bool,
    pub max_retries: u32,
}

impl View for OandaConfig {
    type V = OandaConfigView;

    open spec fn view(&self) -> OandaConfigView {
        OandaConfigView {
            api_key: self.api_key@,
            account_id: self.account_id@,
            practice: self.practice,
            base_url: match self.base_url {
                Some(url) => Some(url@),
                None => None,
            },
            timeout_seconds: self.timeout_seconds,
            requests_per_second: self.requests_per_second,
            enable_retries: self.enable_retries,
            max_retries: self.max_retries,
        }
    }
}

/// Timeout in seconds of a configuration that names none.
pub fn default_timeout() -> (seconds: u64)
    ensures
        seconds == 10,
{
    10
}

/// Requests per second of a configuration that names none.
pub fn default_rate_limit() -> (requests_per_second: u32)
    ensures
        requests_per_second == 100,
{
    100
}

/// Retries are on unless switched off.
pub fn default_true() -> (enabled: bool)
    ensures
        enabled,
{
    true
}

/// Retries of a configuration that names none.
pub fn default_max_retries() -> (retries: u32)
    ensures
        retries == 3,
{
    3
}

/// The duration of `seconds` whole seconds, as `Duration::from_secs` builds it.
pub uninterp spec fn seconds_as_duration(seconds: u64) -> Duration;

/// Calls `Duration::from_secs`, which the name [`seconds_as_duration`] stands for.
#[verifier::external_body]
fn duration_of_seconds(seconds: u64) -> (duration: Duration)
    ensures
        duration == seconds_as_duration(seconds),
{
    Duration::from_secs(seconds)
}

impl OandaConfigView {
    /// The configuration for the given credentials, with every other setting
    /// at its default.
    pub open spec fn with_defaults(api_key: Seq<char>, account_id: Seq<char>, practice: bool)
        -> OandaConfigView {
        OandaConfigView {
            api_key,
            account_id,
            practice,
            base_url: None,
            timeout_seconds: 10,
            requests_per_second: 100,
            enable_retries: true,
            max_retries: 3,
        }
    }

    /// The base URL in force: the one set, else the one of the environment
    /// that `practice` selects.
    pub open spec fn effective_base_url(self) -> Seq<char> {
        match self.base_url {
            Some(url) => url,
            None => if self.practice {
                PRACTICE_URL@
            } else {
                LIVE_URL@
            },
        }
    }

    /// The first complaint about the configuration, if there is one. The API
    /// key is looked at first, then the account ID, the timeout and the rate.
    pub open spec fn complaint(self) -> Option<Seq<char>> {
        if self.api_key.len() == 0 {
            Some("API key cannot be empty"@)
        } else if self.account_id.len() == 0 {
            Some("Account ID cannot be empty"@)
        } else if self.timeout_seconds == 0 {
            Some("Timeout must be greater than 0"@)
        } else if self.requests_per_second == 0 {
            Some("Requests per second must be greater than 0"@)
        } else {
            None
        }
    }

    /// Whether the configuration is usable.
    pub open spec fn valid(self) -> bool {
        self.complaint() is None
    }
}

/// The number that the text of a setting spells, or `fallback` where the
/// setting is absent or spells no unsigned decimal number of at most `max`.
pub open spec fn number_setting(value: Option<Seq<char>>, max: nat, fallback: nat) -> nat {
    match value {
        Some(text) => match parse_unsigned(encode_utf8(text), max) {
            Some(number) => number,
            None => fallback,
        },
        None => fallback,
    }
}

/// The practice flag that a setting stands for: off only where the setting
/// reads `false`.
pub open spec fn practice_setting(value: Option<Seq<char>>) -> bool {
    match value {
        Some(text) => text != "false"@,
        None => true,
    }
}

/// What [`OandaConfig::from_vars`] answers: the API key and the account ID
/// are required, in that order; the other settings fall back to defaults.
pub open spec fn config_from_vars(
    api_key: Option<Seq<char>>,
    account_id: Option<Seq<char>>,
    practice: Option<Seq<char>>,
    timeout_seconds: Option<Seq<char>>,
    requests_per_second: Option<Seq<char>>,
) -> Result<OandaConfigView, ErrorView> {
    match api_key {
        None => Err(ErrorView::ConfigError("OANDA_API_KEY environment variable not set"@)),
        Some(key) => match account_id {
            None => Err(ErrorView::ConfigError("OANDA_ACCOUNT_ID environment variable not set"@)),
            Some(account) => Ok(
                OandaConfigView {
                    api_key: key,
                    account_id: account,
                    practice: practice_setting(practice),
                    base_url: None,
                    timeout_seconds: number_setting(timeout_seconds, u64::MAX as nat, 10) as u64,
                    requests_per_second: number_setting(
                        requests_per_second,
                        u32::MAX as nat,
                        100,
                    ) as u32,
                    enable_retries: true,
                    max_retries: 3,
                },
            ),
        },
    }
}

/// Reads a number off an optional setting.
fn read_number_setting(value: &Option<String>, max: u64, fallback: u64) -> (number: u64)
    requires
        fallback <= max,
    ensures
        number == number_setting(
            match *value {
                Some(text) => Some(text@),
                None => None,
            },
            max as nat,
            fallback as nat,
        ),
        number <= max,
{
    match value {
        Some(text) => match read_unsigned(text.as_str().as_bytes(), max) {
            Some(number) => number,
            None => fallback,
        },
        None => fallback,
    }
}

impl OandaConfig {
    /// A configuration for the given credentials, with every other setting at
    /// its default.
    pub fn new(api_key: String, account_id: String, practice: bool) -> (config: Self)
        ensures
            config@ == OandaConfigView::with_defaults(api_key@, account_id@, practice),
    {
        OandaConfig {
            api_key,
            account_id,
            practice,
            base_url: None,
            timeout_seconds: default_timeout(),
            requests_per_second: default_rate_limit(),
            enable_retries: default_true(),
            max_retries: default_max_retries(),
        }
    }

    /// Builds a configuration from the values of the variables
    /// `OANDA_API_KEY`, `OANDA_ACCOUNT_ID`, `OANDA_PRACTICE`,
    /// `OANDA_TIMEOUT_SECONDS` and `OANDA_REQUESTS_PER_SECOND`, each `None`
    /// where the variable is not set.
    pub fn from_vars(
        api_key: Option<String>,
        account_id: Option<String>,
        practice: Option<String>,
        timeout_seconds: Option<String>,
        requests_per_second: Option<String>,
    ) -> (result: Result<Self, Error>)
        ensures
            match result {
                Ok(config) => config_from_vars(
                    api_key.deep_view(),
                    account_id.deep_view(),
                    practice.deep_view(),
                    timeout_seconds.deep_view(),
                    requests_per_second.deep_view(),
                ) == Ok::<OandaConfigView, ErrorView>(config@),
                Err(error) => config_from_vars(
                    api_key.deep_view(),
                    account_id.deep_view(),
                    practice.deep_view(),
                    timeout_seconds.deep_view(),
                    requests_per_second.deep_view(),
                ) == Err::<OandaConfigView, ErrorView>(error@),
            },
    {
        let key = match api_key {
            Some(key) => key,
            None => {
                return Err(
                    Error::ConfigError(
                        String::from_str("OANDA_API_KEY environment variable not set"),
                    ),
                );
            },
        };
        let account = match account_id {
            Some(account) => account,
            None => {
                return Err(
                    Error::ConfigError(
                        String::from_str("OANDA_ACCOUNT_ID environment variable not set"),
                    ),
                );
            },
        };
        let practice_flag = match &practice {
            Some(text) => !same_text(text.as_str(), "false"),
            None => true,
        };
        let timeout = read_number_setting(&timeout_seconds, u64::MAX, 10);
        let rate = read_number_setting(&requests_per_second, 0xffff_ffff, 100);
        Ok(
            OandaConfig {
                api_key: key,
                account_id: account,
                practice: practice_flag,
                base_url: None,
                timeout_seconds: timeout,
                requests_per_second: rate as u32,
                enable_retries: default_true(),
                max_retries: default_max_retries(),
            },
        )
    }

    /// The base URL in force.
    pub fn get_base_url(&self) -> (url: String)
        ensures
            url@ == self@.effective_base_url(),
    {
        match &self.base_url {
            Some(url) => url.clone(),
            None => {
                if self.practice {
                    String::from_str(PRACTICE_URL)
                } else {
                    String::from_str(LIVE_URL)
                }
            },
        }
    }

    /// The timeout of one HTTP attempt.
    pub fn timeout(&self) -> (timeout: Duration)
        ensures
            timeout == seconds_as_duration(self.timeout_seconds),
    {
        duration_of_seconds(self.timeout_seconds)
    }

    /// Checks the configuration; the error names the first setting that is
    /// not usable.
    pub fn validate(&self) -> (result: Result<(), Error>)
        ensures
            match result {
                Ok(_) => self@.complaint() is None,
                Err(error) => self@.complaint() matches Some(message) && error@
                    == ErrorView::ConfigError(message),
            },
    {
        if self.api_key.as_str().is_empty() {
            return Err(Error::ConfigError(String::from_str("API key cannot be empty")));
        }
        if self.account_id.as_str().is_empty() {
            return Err(Error::ConfigError(String::from_str("Account ID cannot be empty")));
        }
        if self.timeout_seconds == 0 {
            return Err(Error::ConfigError(String::from_str("Timeout must be greater than 0")));
        }
        if self.requests_per_second == 0 {
            return Err(
                Error::ConfigError(String::from_str("Requests per second must be greater than 0")),
            );
        }
        Ok(())
    }
}

impl Default for OandaConfig {
    /// The configuration with empty credentials, for the practice
    /// environment, with every other setting at its default.
    fn default() -> (config: Self)
        ensures
            config@ == OandaConfigView::with_defaults(Seq::empty(), Seq::empty(), true),
    {
        OandaConfig {
            api_key: String::new(),
            account_id: String::new(),
            practice: true,
            base_url: None,
            timeout_seconds: default_timeout(),
            requests_per_second: default_rate_limit(),
            enable_retries: default_true(),
            max_retries: default_max_retries(),
        }
    }
}

/// A configuration with defaults and credentials that are not empty is valid;
/// the default configuration, whose credentials are empty, is not.
pub proof fn defaults_need_credentials(api_key: Seq<char>, account_id: Seq<char>, practice: bool)
    ensures
        OandaConfigView::with_defaults(api_key, account_id, practice).valid() <==> (api_key.len()
            > 0 && account_id.len() > 0),
{
}

} // verus!
