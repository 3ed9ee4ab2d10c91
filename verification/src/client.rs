//! The client: which requests go out, and what their answers mean.
//!
//! The client does not talk to the network itself. It describes each request,
//! and reads what came back once the caller has run it through the client's
//! [`RequestPipeline`].

use crate::backoff::RetryPolicy;
use crate::config::OandaConfig;
use crate::config::OandaConfigView;
use crate::endpoints::path_of;
use crate::endpoints::Endpoints;
use crate::error::Error;
use crate::error::ErrorView;
use crate::models::CandleQuote;
use crate::models::CandleQuoteView;
use crate::models::Granularity;
use crate::models::OandaCandle;
use crate::models::OandaPrice;
use crate::models::PriceQuote;
use crate::models::PriceQuoteView;
use crate::pipeline::RequestPipeline;
use crate::rate_limiter::QuotaView;
use crate::rate_limiter::RateLimiter;
use crate::text::decimal_digits;
use crate::text::decimal_text;
use crate::text::same_text;
use vstd::prelude::*;
use vstd::string::StringExecFns;

verus! {

/// Name of the header that carries the credential.
pub const AUTHORIZATION_HEADER: &'static str = "Authorization";

/// Name of the header that selects the format of times in answers.
pub const DATETIME_FORMAT_HEADER: &'static str = "Accept-Datetime-Format";

/// Most candles that one request may ask for.
pub const MAX_CANDLE_COUNT: usize = 5000;

/// One outgoing `GET` request.
#[derive(Debug, Clone, PartialEq, Eq)]
pub struct RequestDescriptor {
    /// Base URL, path and query.
    pub url: String,
    /// Value of the `Authorization` header.
    pub authorization: String,
    /// Value of the `Accept-Datetime-Format` header, where the request sends one.
    pub datetime_format: Option<String>,
}

/// Mathematical value of a [`RequestDescriptor`].
pub struct RequestDescriptorView {
    pub url: Seq<char>,
    pub authorization: Seq<char>,
    pub datetime_format: Option<Seq<char>>,
}

impl View for RequestDescriptor {
    type V = RequestDescriptorView;

    open spec fn view(&self) -> RequestDescriptorView {
        RequestDescriptorView {
            url: self.url@,
            authorization: self.authorization@,
            datetime_format: match self.datetime_format {
                Some(format) => Some(format@),
                None => None,
            },
        }
    }
}

/// `parts` in one text, with `separator` between each two neighbours.
pub open spec fn joined(parts: Seq<Seq<char>>, separator: Seq<char>) -> Seq<char>
    decreases parts.len(),
{
    if parts.len() == 0 {
        Seq::empty()
    } else if parts.len() == 1 {
        parts[0]
    } else {
        joined(parts.drop_last(), separator) + separator + parts.last()
    }
}

/// The texts of `items`.
pub open spec fn texts(items: Seq<String>) -> Seq<Seq<char>> {
    items.map_values(|item: String| item@)
}

/// Joins `items` with `separator` between each two neighbours.
pub fn join(items: &[String], separator: &str) -> (text: String)
    ensures
        text@ == joined(texts(items@), separator@),
{
    let mut text = String::new();
    let mut i: usize = 0;
    while i < items.len()
        invariant
            i <= items.len(),
            text@ == joined(texts(items@).take(i as int), separator@),
        decreases items.len() - i,
    {
        let ghost before = texts(items@).take(i as int);
        let ghost after = texts(items@).take(i + 1);
        proof {
            assert(after.drop_last() =~= before);
            assert(after.last() == items@[i as int]@);
        }
        if i > 0 {
            text.append(separator);
        }
        text.append(items[i].as_str());
        proof {
            if i == 0 {
                assert(text@ =~= after[0]);
            }
        }
        i = i + 1;
    }
    proof {
        assert(texts(items@).take(i as int) =~= texts(items@));
    }
    text
}

impl OandaConfigView {
    /// The `Authorization` header of every request.
    pub open spec fn authorization(self) -> Seq<char> {
        "Bearer "@ + self.api_key
    }

    /// A request for `url` that asks for times in RFC 3339.
    pub open spec fn timed_request(self, url: Seq<char>) -> RequestDescriptorView {
        RequestDescriptorView {
            url,
            authorization: self.authorization(),
            datetime_format: Some("RFC3339"@),
        }
    }

    /// A request for `url` that names no format for times.
    pub open spec fn plain_request(self, url: Seq<char>) -> RequestDescriptorView {
        RequestDescriptorView { url, authorization: self.authorization(), datetime_format: None }
    }

    /// URL of the pricing endpoint for the instruments listed in `instruments`.
    pub open spec fn pricing_url(self, instruments: Seq<char>) -> Seq<char> {
        self.effective_base_url() + path_of("/v3/accounts/"@, self.account_id, "/pricing"@)
            + "?instruments="@ + instruments
    }

    /// URL of the candles endpoint of `instrument`, without the query.
    pub open spec fn candles_url(self, instrument: Seq<char>) -> Seq<char> {
        self.effective_base_url() + path_of("/v3/instruments/"@, instrument, "/candles"@)
    }

    /// The request for the last `count` candles, or the refusal of a count
    /// above 5000.
    pub open spec fn candles_request(
        self,
        instrument: Seq<char>,
        granularity: Granularity,
        count: nat,
    ) -> Result<RequestDescriptorView, ErrorView> {
        if count > 5000 {
            Err(
                ErrorView::ConfigError(
                    "Count "@ + decimal_digits(count) + " exceeds maximum of 5000"@,
                ),
            )
        } else {
            Ok(
                self.timed_request(
                    self.candles_url(instrument) + "?granularity="@ + granularity.code()
                        + "&count="@ + decimal_digits(count),
                ),
            )
        }
    }

    /// The request for the candles between `from` and `to`.
    pub open spec fn candles_range_request(
        self,
        instrument: Seq<char>,
        granularity: Granularity,
        from: Seq<char>,
        to: Seq<char>,
    ) -> RequestDescriptorView {
        self.timed_request(
            self.candles_url(instrument) + "?granularity="@ + granularity.code() + "&from="@ + from
                + "&to="@ + to,
        )
    }
}

/// Whether `prices[index]` is the first price of `instrument`.
pub open spec fn is_first_price_of(prices: Seq<OandaPrice>, instrument: Seq<char>, index: int)
    -> bool {
    &&& 0 <= index < prices.len()
    &&& prices[index].instrument@ == instrument
    &&& forall|j: int| 0 <= j < index ==> (#[trigger] prices[j]).instrument@ != instrument
}

/// All values of `results` in order, or the first error among them.
pub open spec fn all_or_first_error<T>(results: Seq<Result<T, ErrorView>>) -> Result<
    Seq<T>,
    ErrorView,
>
    decreases results.len(),
{
    if results.len() == 0 {
        Ok(Seq::empty())
    } else {
        match all_or_first_error(results.drop_last()) {
            Err(error) => Err(error),
            Ok(front) => match results.last() {
                Ok(value) => Ok(front.push(value)),
                Err(error) => Err(error),
            },
        }
    }
}

/// An error among the first results is the outcome for all of them.
proof fn first_error_stays<T>(results: Seq<Result<T, ErrorView>>, seen: int)
    requires
        0 <= seen <= results.len(),
        all_or_first_error(results.take(seen)) is Err,
    ensures
        all_or_first_error(results) == all_or_first_error(results.take(seen)),
    decreases results.len() - seen,
{
    if seen == results.len() {
        assert(results.take(seen) =~= results);
    } else {
        assert(results.take(seen + 1).drop_last() =~= results.take(seen));
        first_error_stays(results, seen + 1);
    }
}

/// The quotes of `prices`, each with its own outcome.
pub open spec fn ticks(prices: Seq<OandaPrice>) -> Seq<Result<PriceQuoteView, ErrorView>> {
    prices.map_values(|price: OandaPrice| price.tick())
}

/// The candles of `candles` for `instrument`, each with its own outcome.
pub open spec fn candle_quotes(candles: Seq<OandaCandle>, instrument: Seq<char>) -> Seq<
    Result<CandleQuoteView, ErrorView>,
> {
    candles.map_values(|candle: OandaCandle| candle.candle(instrument))
}

/// The values of `quotes`.
pub open spec fn quote_views(quotes: Seq<PriceQuote>) -> Seq<PriceQuoteView> {
    quotes.map_values(|quote: PriceQuote| quote@)
}

/// The values of `candles`.
pub open spec fn candle_views(candles: Seq<CandleQuote>) -> Seq<CandleQuoteView> {
    candles.map_values(|candle: CandleQuote| candle@)
}

/// Picks the quote of `instrument` out of a pricing answer: the first price
/// of that instrument counts, and an answer without one is an error.
pub fn current_price_of(prices: &[OandaPrice], instrument: &str) -> (result: Result<
    PriceQuote,
    Error,
>)
    ensures
        (forall|j: int| 0 <= j < prices@.len() ==> (#[trigger] prices@[j]).instrument@
            != instrument@) ==> (result matches Err(error) && error@
            == ErrorView::InvalidInstrument(instrument@)),
        forall|index: int|
            is_first_price_of(prices@, instrument@, index) ==> match result {
                Ok(quote) => prices@[index].tick() == Ok::<PriceQuoteView, ErrorView>(quote@),
                Err(error) => prices@[index].tick() == Err::<PriceQuoteView, ErrorView>(error@),
            },
{
    let mut i: usize = 0;
    while i < prices.len()
        invariant
            i <= prices.len(),
            forall|j: int| 0 <= j < i ==> (#[trigger] prices@[j]).instrument@ != instrument@,
        decreases prices.len() - i,
    {
        if same_text(prices[i].instrument.as_str(), instrument) {
            let result = prices[i].to_tick();
            proof {
                assert forall|index: int|
                    is_first_price_of(prices@, instrument@, index) implies index == i by {
                    if index < i {
                        assert(prices@[index].instrument@ != instrument@);
                    } else if index > i {
                        assert(prices@[i as int].instrument@ != instrument@);
                    }
                }
            }
            return result;
        }
        i = i + 1;
    }
    Err(Error::InvalidInstrument(String::from_str(instrument)))
}

/// Turns a pricing answer into quotes; the first price that yields none
/// decides the outcome.
pub fn current_prices_of(prices: &[OandaPrice]) -> (result: Result<Vec<PriceQuote>, Error>)
    ensures
        match result {
            Ok(quotes) => all_or_first_error(ticks(prices@)) == Ok::<
                Seq<PriceQuoteView>,
                ErrorView,
            >(quote_views(quotes@)),
            Err(error) => all_or_first_error(ticks(prices@)) == Err::<
                Seq<PriceQuoteView>,
                ErrorView,
            >(error@),
        },
{
    let mut quotes: Vec<PriceQuote> = Vec::new();
    let mut i: usize = 0;
    proof {
        assert(quote_views(quotes@) =~= Seq::empty());
    }
    while i < prices.len()
        invariant
            i <= prices.len(),
            all_or_first_error(ticks(prices@).take(i as int)) == Ok::<
                Seq<PriceQuoteView>,
                ErrorView,
            >(quote_views(quotes@)),
        decreases prices.len() - i,
    {
        let ghost seen = ticks(prices@).take(i as int);
        let ghost next = ticks(prices@).take(i + 1);
        proof {
            assert(next.drop_last() =~= seen);
            assert(next.last() == prices@[i as int].tick());
        }
        match prices[i].to_tick() {
            Ok(quote) => {
                let ghost before = quote_views(quotes@);
                quotes.push(quote);
                proof {
                    assert(quote_views(quotes@) =~= before.push(quote@));
                }
            },
            Err(error) => {
                proof {
                    first_error_stays(ticks(prices@), i + 1);
                }
                return Err(error);
            },
        }
        i = i + 1;
    }
    proof {
        assert(ticks(prices@).take(i as int) =~= ticks(prices@));
    }
    Ok(quotes)
}

/// Turns a candles answer into candles of `instrument`; the first candle
/// that yields none decides the outcome.
pub fn candles_of(candles: &[OandaCandle], instrument: &str) -> (result: Result<
    Vec<CandleQuote>,
    Error,
>)
    ensures
        match result {
            Ok(quotes) => all_or_first_error(candle_quotes(candles@, instrument@)) == Ok::<
                Seq<CandleQuoteView>,
                ErrorView,
            >(candle_views(quotes@)),
            Err(error) => all_or_first_error(candle_quotes(candles@, instrument@)) == Err::<
                Seq<CandleQuoteView>,
                ErrorView,
            >(error@),
        },
{
    let mut quotes: Vec<CandleQuote> = Vec::new();
    let mut i: usize = 0;
    proof {
        assert(candle_views(quotes@) =~= Seq::empty());
    }
    while i < candles.len()
        invariant
            i <= candles.len(),
            all_or_first_error(candle_quotes(candles@, instrument@).take(i as int)) == Ok::<
                Seq<CandleQuoteView>,
                ErrorView,
            >(candle_views(quotes@)),
        decreases candles.len() - i,
    {
        let ghost seen = candle_quotes(candles@, instrument@).take(i as int);
        let ghost next = candle_quotes(candles@, instrument@).take(i + 1);
        proof {
            assert(next.drop_last() =~= seen);
            assert(next.last() == candles@[i as int].candle(instrument@));
        }
        match candles[i].to_candle(String::from_str(instrument)) {
            Ok(quote) => {
                let ghost before = candle_views(quotes@);
                quotes.push(quote);
                proof {
                    assert(candle_views(quotes@) =~= before.push(quote@));
                }
            },
            Err(error) => {
                proof {
                    first_error_stays(candle_quotes(candles@, instrument@), i + 1);
                }
                return Err(error);
            },
        }
        i = i + 1;
    }
    proof {
        assert(candle_quotes(candles@, instrument@).take(i as int) =~= candle_quotes(
            candles@,
            instrument@,
        ));
    }
    Ok(quotes)
}

/// Reads the answer to a health check off the outcome of an account request:
/// an answer means healthy, refused credentials mean not healthy, and any
/// other error is passed on.
pub fn health_of<T>(outcome: Result<T, Error>) -> (health: Result<bool, Error>)
    ensures
        match outcome {
            Ok(_) => health == Ok::<bool, Error>(true),
            Err(error) => if error@ == ErrorView::AuthenticationFailed {
                health == Ok::<bool, Error>(false)
            } else {
                health == Err::<bool, Error>(error)
            },
        },
{
    match outcome {
        Ok(_) => Ok(true),
        Err(Error::AuthenticationFailed) => Ok(false),
        Err(error) => Err(error),
    }
}

/// OANDA API client.
pub struct OandaClient {
    config: OandaConfig,
    pipeline: RequestPipeline,
}

impl OandaClient {
    /// The configuration of the client.
    pub closed spec fn config_view(&self) -> OandaConfigView {
        self.config@
    }

    /// The retry rules of the client.
    pub closed spec fn policy_view(&self) -> RetryPolicy {
        self.pipeline.policy_view()
    }

    /// The quota of the client's rate limiter.
    pub closed spec fn quota_view(&self) -> QuotaView {
        self.pipeline.limiter_quota()
    }

    /// A client for `config`, or the complaint about `config`. The client
    /// retries as `config` says and lets `requests_per_second` requests start
    /// at once and per second.
    pub fn new(config: OandaConfig) -> (result: Result<Self, Error>)
        ensures
            match result {
                Ok(client) => {
                    &&& config@.complaint() is None
                    &&& client.config_view() == config@
                    &&& client.policy_view() == RetryPolicy::standard(
                        config.enable_retries,
                        config.max_retries,
                    )
                    &&& client.quota_view() == (QuotaView {
                        capacity: config.requests_per_second as nat,
                        refill_rate_per_second: config.requests_per_second as nat,
                    })
                },
                Err(error) => config@.complaint() matches Some(message) && error@
                    == ErrorView::ConfigError(message),
            },
    {
        match config.validate() {
            Err(error) => Err(error),
            Ok(_) => {
                let policy = RetryPolicy::new(config.enable_retries, config.max_retries);
                let limiter = RateLimiter::new(config.requests_per_second);
                Ok(OandaClient { config, pipeline: RequestPipeline::new(policy, limiter) })
            },
        }
    }

    /// The configuration of the client.
    pub fn config(&self) -> (config: &OandaConfig)
        ensures
            config@ == self.config_view(),
    {
        &self.config
    }

    /// The pipeline that every request of the client goes through.
    pub fn pipeline(&self) -> (pipeline: &RequestPipeline)
        ensures
            pipeline.policy_view() == self.policy_view(),
            pipeline.limiter_quota() == self.quota_view(),
    {
        &self.pipeline
    }

    /// The `Authorization` header of every request.
    fn authorization(&self) -> (value: String)
        ensures
            value@ == self.config_view().authorization(),
    {
        String::from_str("Bearer ").concat(self.config.api_key.as_str())
    }

    /// A request for `url` that asks for times in RFC 3339.
    fn timed_request(&self, url: String) -> (request: RequestDescriptor)
        ensures
            request@ == self.config_view().timed_request(url@),
    {
        RequestDescriptor {
            url,
            authorization: self.authorization(),
            datetime_format: Some(String::from_str("RFC3339")),
        }
    }

    /// A request for `url` that names no format for times.
    fn plain_request(&self, url: String) -> (request: RequestDescriptor)
        ensures
            request@ == self.config_view().plain_request(url@),
    {
        RequestDescriptor { url, authorization: self.authorization(), datetime_format: None }
    }

    /// URL of the pricing endpoint for the instruments listed in `instruments`.
    fn pricing_url(&self, instruments: &str) -> (url: String)
        ensures
            url@ == self.config_view().pricing_url(instruments@),
    {
        let mut url = self.config.get_base_url();
        url.append(Endpoints::pricing(self.config.account_id.as_str()).as_str());
        url.append("?instruments=");
        url.append(instruments);
        url
    }

    /// URL of the candles endpoint of `instrument`, up to the granularity.
    fn candles_url(&self, instrument: &str, granularity: Granularity) -> (url: String)
        ensures
            url@ == self.config_view().candles_url(instrument@) + "?granularity="@
                + granularity.code(),
    {
        let mut url = self.config.get_base_url();
        url.append(Endpoints::candles(instrument).as_str());
        url.append("?granularity=");
        url.append(granularity.as_str());
        url
    }

    /// The request for the current price of `instrument`.
    pub fn current_price_request(&self, instrument: &str) -> (request: RequestDescriptor)
        ensures
            request@ == self.config_view().timed_request(
                self.config_view().pricing_url(instrument@),
            ),
    {
        self.timed_request(self.pricing_url(instrument))
    }

    /// The request for the current prices of `instruments`, which go into the
    /// query separated by commas.
    pub fn current_prices_request(&self, instruments: &[String]) -> (request: RequestDescriptor)
        ensures
            request@ == self.config_view().timed_request(
                self.config_view().pricing_url(joined(texts(instruments@), ","@)),
            ),
    {
        let list = join(instruments, ",");
        self.timed_request(self.pricing_url(list.as_str()))
    }

    /// The request for the last `count` candles of `instrument`; a count
    /// above 5000 is refused.
    pub fn candles_request(&self, instrument: &str, granularity: Granularity, count: usize) -> (result:
        Result<RequestDescriptor, Error>)
        ensures
            match result {
                Ok(request) => self.config_view().candles_request(
                    instrument@,
                    granularity,
                    count as nat,
                ) == Ok::<RequestDescriptorView, ErrorView>(request@),
                Err(error) => self.config_view().candles_request(
                    instrument@,
                    granularity,
                    count as nat,
                ) == Err::<RequestDescriptorView, ErrorView>(error@),
            },
    {
        let digits = decimal_text(count as u64);
        if count > MAX_CANDLE_COUNT {
            let mut message = String::from_str("Count ");
            message.append(digits.as_str());
            message.append(" exceeds maximum of 5000");
            return Err(Error::ConfigError(message));
        }
        let mut url = self.candles_url(instrument, granularity);
        url.append("&count=");
        url.append(digits.as_str());
        Ok(self.timed_request(url))
    }

    /// The request for the candles of `instrument` between `from` and `to`,
    /// two times in RFC 3339.
    pub fn candles_range_request(
        &self,
        instrument: &str,
        granularity: Granularity,
        from: &str,
        to: &str,
    ) -> (request: RequestDescriptor)
        ensures
            request@ == self.config_view().candles_range_request(
                instrument@,
                granularity,
                from@,
                to@,
            ),
    {
        let mut url = self.candles_url(instrument, granularity);
        url.append("&from=");
        url.append(from);
        url.append("&to=");
        url.append(to);
        self.timed_request(url)
    }

    /// The request for the summary of the account.
    pub fn account_summary_request(&self) -> (request: RequestDescriptor)
        ensures
            request@ == self.config_view().timed_request(
                self.config_view().effective_base_url() + "/v3/accounts/"@
                    + self.config_view().account_id,
            ),
    {
        let mut url = self.config.get_base_url();
        url.append(Endpoints::account(self.config.account_id.as_str()).as_str());
        proof {
            let base = self.config_view().effective_base_url();
            let account = self.config_view().account_id;
            assert(base + ("/v3/accounts/"@ + account) =~= base + "/v3/accounts/"@ + account);
        }
        self.timed_request(url)
    }

    /// The request for the instruments of the account.
    pub fn instruments_request(&self) -> (request: RequestDescriptor)
        ensures
            request@ == self.config_view().plain_request(
                self.config_view().effective_base_url() + path_of(
                    "/v3/accounts/"@,
                    self.config_view().account_id,
                    "/instruments"@,
                ),
            ),
    {
        let mut url = self.config.get_base_url();
        url.append(Endpoints::instruments(self.config.account_id.as_str()).as_str());
        self.plain_request(url)
    }
}

/// Builder for [`OandaClient`].
pub struct OandaClientBuilder {
    config: OandaConfig,
}

impl OandaClientBuilder {
    /// The configuration collected so far.
    pub closed spec fn config_view(&self) -> OandaConfigView {
        self.config@
    }

    /// A builder that starts from `config`.
    pub fn new(config: OandaConfig) -> (builder: Self)
        ensures
            builder.config_view() == config@,
    {
        OandaClientBuilder { config }
    }

    /// Sets the timeout of one attempt, in seconds.
    pub fn timeout(self, seconds: u64) -> (builder: Self)
        ensures
            builder.config_view() == (OandaConfigView {
                timeout_seconds: seconds,
                ..self.config_view()
            }),
    {
        let mut config = self.config;
        config.timeout_seconds = seconds;
        OandaClientBuilder { config }
    }

    /// Sets the requests that may start per second.
    pub fn rate_limit(self, requests_per_second: u32) -> (builder: Self)
        ensures
            builder.config_view() == (OandaConfigView {
                requests_per_second,
                ..self.config_view()
            }),
    {
        let mut config = self.config;
        config.requests_per_second = requests_per_second;
        OandaClientBuilder { config }
    }

    /// Switches retries on or off.
    pub fn retries(self, enable: bool) -> (builder: Self)
        ensures
            builder.config_view() == (OandaConfigView {
                enable_retries: enable,
                ..self.config_view()
            }),
    {
        let mut config = self.config;
        config.enable_retries = enable;
        OandaClientBuilder { config }
    }

    /// Sets the retries allowed after the first attempt.
    pub fn max_retries(self, max: u32) -> (builder: Self)
        ensures
            builder.config_view() == (OandaConfigView { max_retries: max, ..self.config_view() }),
    {
        let mut config = self.config;
        config.max_retries = max;
        OandaClientBuilder { config }
    }

    /// Builds the client, or says what is wrong with the configuration.
    pub fn build(self) -> (result: Result<OandaClient, Error>)
        ensures
            match result {
                Ok(client) => {
                    &&& self.config_view().complaint() is None
                    &&& client.config_view() == self.config_view()
                    &&& client.policy_view() == RetryPolicy::standard(
                        self.config_view().enable_retries,
                        self.config_view().max_retries,
                    )
                    &&& client.quota_view() == (QuotaView {
                        capacity: self.config_view().requests_per_second as nat,
                        refill_rate_per_second: self.config_view().requests_per_second as nat,
                    })
                },
                Err(error) => self.config_view().complaint() matches Some(message) && error@
                    == ErrorView::ConfigError(message),
            },
    {
        OandaClient::new(self.config)
    }
}

} // verus!
