//! Data of the OANDA API, as far as the connector decides anything about it.
//!
//! Prices are kept as the decimal text that the server sent: turning them
//! into binary floating point is left to the caller.

use crate::error::Error;
use crate::error::ErrorView;
use crate::text::same_text;
use vstd::prelude::*;
use vstd::string::StringExecFns;

verus! {

/// Time granularity of candles.
#[derive(Debug, Clone, Copy, PartialEq, Eq, Structural)]
pub enum Granularity {
    /// 5 seconds
    S5,
    /// 10 seconds
    S10,
    /// 15 seconds
    S15,
    /// 30 seconds
    S30,
    /// 1 minute
    M1,
    /// 2 minutes
    M2,
    /// 5 minutes
    M5,
    /// 15 minutes
    M15,
    /// 30 minutes
    M30,
    /// 1 hour
    H1,
    /// 4 hours
    H4,
    /// Daily
    D,
    /// Weekly
    W,
    /// Monthly
    M,
}

/// The granularity that a code names, if it names one. Codes are in upper case.
pub open spec fn granularity_of_code(code: Seq<char>) -> Option<Granularity> {
    if code == "S5"@ {
        Some(Granularity::S5)
    } else if code == "S10"@ {
        Some(Granularity::S10)
    } else if code == "S15"@ {
        Some(Granularity::S15)
    } else if code == "S30"@ {
        Some(Granularity::S30)
    } else if code == "M1"@ {
        Some(Granularity::M1)
    } else if code == "M2"@ {
        Some(Granularity::M2)
    } else if code == "M5"@ {
        Some(Granularity::M5)
    } else if code == "M15"@ {
        Some(Granularity::M15)
    } else if code == "M30"@ {
        Some(Granularity::M30)
    } else if code == "H1"@ {
        Some(Granularity::H1)
    } else if code == "H4"@ {
        Some(Granularity::H4)
    } else if code == "D"@ {
        Some(Granularity::D)
    } else if code == "W"@ {
        Some(Granularity::W)
    } else if code == "M"@ {
        Some(Granularity::M)
    } else {
        None
    }
}

/// `text` in upper case, as `str::to_uppercase` gives it.
pub uninterp spec fn uppercase(text: Seq<char>) -> Seq<char>;

/// Calls `str::to_uppercase`, which follows the Unicode case tables; the name
/// [`uppercase`] stands for its result.
#[verifier::external_body]
fn to_uppercase(text: &str) -> (upper: String)
    ensures
        upper@ == uppercase(text@),
{
    text.to_uppercase()
}

impl Granularity {
    /// Length of one candle in seconds; a month counts as 30 days.
    pub open spec fn seconds(self) -> nat {
        match self {
            Granularity::S5 => 5,
            Granularity::S10 => 10,
            Granularity::S15 => 15,
            Granularity::S30 => 30,
            Granularity::M1 => 60,
            Granularity::M2 => 2 * 60,
            Granularity::M5 => 5 * 60,
            Granularity::M15 => 15 * 60,
            Granularity::M30 => 30 * 60,
            Granularity::H1 => 60 * 60,
            Granularity::H4 => 4 * 60 * 60,
            Granularity::D => 24 * 60 * 60,
            Granularity::W => 7 * 24 * 60 * 60,
            Granularity::M => 30 * 24 * 60 * 60,
        }
    }

    /// The code of the granularity in requests.
    pub open spec fn code(self) -> Seq<char> {
        match self {
            Granularity::S5 => "S5"@,
            Granularity::S10 => "S10"@,
            Granularity::S15 => "S15"@,
            Granularity::S30 => "S30"@,
            Granularity::M1 => "M1"@,
            Granularity::M2 => "M2"@,
            Granularity::M5 => "M5"@,
            Granularity::M15 => "M15"@,
            Granularity::M30 => "M30"@,
            Granularity::H1 => "H1"@,
            Granularity::H4 => "H4"@,
            Granularity::D => "D"@,
            Granularity::W => "W"@,
            Granularity::M => "M"@,
        }
    }

    /// Length of one candle in seconds.
    pub fn duration_seconds(&self) -> (seconds: u64)
        ensures
            seconds == self.seconds(),
    {
        match self {
            Granularity::S5 => 5,
            Granularity::S10 => 10,
            Granularity::S15 => 15,
            Granularity::S30 => 30,
            Granularity::M1 => 60,
            Granularity::M2 => 120,
            Granularity::M5 => 300,
            Granularity::M15 => 900,
            Granularity::M30 => 1800,
            Granularity::H1 => 3600,
            Granularity::H4 => 14400,
            Granularity::D => 86400,
            Granularity::W => 604800,
            Granularity::M => 2592000,
        }
    }

    /// The code of the granularity in requests.
    pub fn as_str(&self) -> (code: &'static str)
        ensures
            code@ == self.code(),
    {
        match self {
            Granularity::S5 => "S5",
            Granularity::S10 => "S10",
            Granularity::S15 => "S15",
            Granularity::S30 => "S30",
            Granularity::M1 => "M1",
            Granularity::M2 => "M2",
            Granularity::M5 => "M5",
            Granularity::M15 => "M15",
            Granularity::M30 => "M30",
            Granularity::H1 => "H1",
            Granularity::H4 => "H4",
            Granularity::D => "D",
            Granularity::W => "W",
            Granularity::M => "M",
        }
    }

    /// The code of the granularity, owned.
    pub fn to_string(&self) -> (code: String)
        ensures
            code@ == self.code(),
    {
        String::from_str(self.as_str())
    }

    /// The granularity that `code` names; `code` is taken as it stands.
    pub fn from_code(code: &str) -> (granularity: Option<Granularity>)
        ensures
            granularity == granularity_of_code(code@),
    {
        if same_text(code, "S5") {
            Some(Granularity::S5)
        } else if same_text(code, "S10") {
            Some(Granularity::S10)
        } else if same_text(code, "S15") {
            Some(Granularity::S15)
        } else if same_text(code, "S30") {
            Some(Granularity::S30)
        } else if same_text(code, "M1") {
            Some(Granularity::M1)
        } else if same_text(code, "M2") {
            Some(Granularity::M2)
        } else if same_text(code, "M5") {
            Some(Granularity::M5)
        } else if same_text(code, "M15") {
            Some(Granularity::M15)
        } else if same_text(code, "M30") {
            Some(Granularity::M30)
        } else if same_text(code, "H1") {
            Some(Granularity::H1)
        } else if same_text(code, "H4") {
            Some(Granularity::H4)
        } else if same_text(code, "D") {
            Some(Granularity::D)
        } else if same_text(code, "W") {
            Some(Granularity::W)
        } else if same_text(code, "M") {
            Some(Granularity::M)
        } else {
            None
        }
    }

    /// The granularity that `text` names once it is put in upper case; the
    /// error carries `text` as it was given.
    pub fn parse(text: &str) -> (result: Result<Granularity, Error>)
        ensures
            match granularity_of_code(uppercase(text@)) {
                Some(granularity) => result == Ok::<Granularity, Error>(granularity),
                None => result matches Err(error) && error@ == ErrorView::InvalidGranularity(
                    text@,
                ),
            },
    {
        let upper = to_uppercase(text);
        match Granularity::from_code(upper.as_str()) {
            Some(granularity) => Ok(granularity),
            None => Err(Error::InvalidGranularity(String::from_str(text))),
        }
    }
}

impl std::str::FromStr for Granularity {
    type Err = Error;

    fn from_str(text: &str) -> (result: Result<Granularity, Error>)
        ensures
            match granularity_of_code(uppercase(text@)) {
                Some(granularity) => result == Ok::<Granularity, Error>(granularity),
                None => result matches Err(error) && error@ == ErrorView::InvalidGranularity(
                    text@,
                ),
            },
    {
        Granularity::parse(text)
    }
}

/// Every granularity is found again under its own code.
pub proof fn code_names_its_granularity(granularity: Granularity)
    ensures
        granularity_of_code(granularity.code()) == Some(granularity),
{
    reveal_strlit("S5");
    reveal_strlit("S10");
    reveal_strlit("S15");
    reveal_strlit("S30");
    reveal_strlit("M1");
    reveal_strlit("M2");
    reveal_strlit("M5");
    reveal_strlit("M15");
    reveal_strlit("M30");
    reveal_strlit("H1");
    reveal_strlit("H4");
    reveal_strlit("D");
    reveal_strlit("W");
    reveal_strlit("M");
    assert("S5"@.len() == 2 && "S5"@[0] == 'S' && "S5"@[1] == '5');
    assert("S10"@.len() == 3 && "S10"@[1] == '1' && "S10"@[2] == '0');
    assert("S15"@.len() == 3 && "S15"@[0] == 'S' && "S15"@[1] == '1' && "S15"@[2] == '5');
    assert("S30"@.len() == 3 && "S30"@[0] == 'S' && "S30"@[1] == '3');
    assert("M1"@.len() == 2 && "M1"@[0] == 'M' && "M1"@[1] == '1');
    assert("M2"@.len() == 2 && "M2"@[0] == 'M' && "M2"@[1] == '2');
    assert("M5"@.len() == 2 && "M5"@[0] == 'M' && "M5"@[1] == '5');
    assert("M15"@.len() == 3 && "M15"@[0] == 'M' && "M15"@[1] == '1');
    assert("M30"@.len() == 3 && "M30"@[0] == 'M' && "M30"@[1] == '3');
    assert("H1"@.len() == 2 && "H1"@[0] == 'H' && "H1"@[1] == '1');
    assert("H4"@.len() == 2 && "H4"@[0] == 'H' && "H4"@[1] == '4');
    assert("D"@.len() == 1 && "D"@[0] == 'D');
    assert("W"@.len() == 1 && "W"@[0] == 'W');
    assert("M"@.len() == 1 && "M"@[0] == 'M');
}

/// An instant: whole seconds since 1970-01-01T00:00:00Z, leap seconds not
/// counted, and the nanoseconds into that second.
#[derive(Debug, Clone, Copy, PartialEq, Eq, Structural)]
pub struct Timestamp {
    pub seconds: i64,
    pub nanos: u32,
}

/// What `chrono::DateTime::parse_from_rfc3339` makes of `text`: the instant,
/// or the message of its error.
pub uninterp spec fn rfc3339_instant(text: Seq<char>) -> Result<Timestamp, Seq<char>>;

/// Calls `chrono::DateTime::parse_from_rfc3339`. The instant is handed over
/// as `timestamp()` and `timestamp_subsec_nanos()`, from which chrono builds
/// the same instant again, an error as its displayed message. The name
/// [`rfc3339_instant`] stands for the result.
#[verifier::external_body]
fn parse_rfc3339(text: &str) -> (result: Result<Timestamp, String>)
    ensures
        match result {
            Ok(instant) => rfc3339_instant(text@) == Ok::<Timestamp, Seq<char>>(instant),
            Err(message) => rfc3339_instant(text@) == Err::<Timestamp, Seq<char>>(message@),
        },
{
    match chrono::DateTime::parse_from_rfc3339(text) {
        Ok(instant) => Ok(
            Timestamp { seconds: instant.timestamp(), nanos: instant.timestamp_subsec_nanos() },
        ),
        Err(error) => Err(error.to_string()),
    }
}

/// One level of an order book.
#[derive(Debug, Clone, PartialEq, Eq)]
pub struct PriceLevel {
    pub price: String,
    pub liquidity: Option<i64>,
}

/// A price as the pricing endpoint reports it.
#[derive(Debug, Clone, PartialEq, Eq)]
pub struct OandaPrice {
    pub instrument: String,
    pub time: String,
    pub bids: Vec<PriceLevel>,
    pub asks: Vec<PriceLevel>,
}

/// Open, high, low and close of one candle.
#[derive(Debug, Clone, PartialEq, Eq)]
pub struct OandaPriceData {
    pub o: String,
    pub h: String,
    pub l: String,
    pub c: String,
}

/// A candle as the candles endpoint reports it.
#[derive(Debug, Clone, PartialEq, Eq)]
pub struct OandaCandle {
    pub time: String,
    pub volume: i64,
    pub complete: bool,
    pub mid: Option<OandaPriceData>,
    pub bid: Option<OandaPriceData>,
    pub ask: Option<OandaPriceData>,
}

/// A quote of one instrument at one instant.
#[derive(Debug, Clone, PartialEq, Eq)]
pub struct PriceQuote {
    pub instrument: String,
    pub timestamp: Timestamp,
    pub bid: String,
    pub ask: String,
}

/// Mathematical value of a [`PriceQuote`].
pub struct PriceQuoteView {
    pub instrument: Seq<char>,
    pub timestamp: Timestamp,
    pub bid: Seq<char>,
    pub ask: Seq<char>,
}

impl View for PriceQuote {
    type V = PriceQuoteView;

    open spec fn view(&self) -> PriceQuoteView {
        PriceQuoteView {
            instrument: self.instrument@,
            timestamp: self.timestamp,
            bid: self.bid@,
            ask: self.ask@,
        }
    }
}

/// One candle of one instrument.
#[derive(Debug, Clone, PartialEq, Eq)]
pub struct CandleQuote {
    pub instrument: String,
    pub timestamp: Timestamp,
    pub open: String,
    pub high: String,
    pub low: String,
    pub close: String,
    pub volume: i64,
    /// Whether the candle is final.
    pub complete: bool,
}

/// Mathematical value of a [`CandleQuote`].
pub struct CandleQuoteView {
    pub instrument: Seq<char>,
    pub timestamp: Timestamp,
    pub open: Seq<char>,
    pub high: Seq<char>,
    pub low: Seq<char>,
    pub close: Seq<char>,
    pub volume: i64,
    pub complete: bool,
}

impl View for CandleQuote {
    type V = CandleQuoteView;

    open spec fn view(&self) -> CandleQuoteView {
        CandleQuoteView {
            instrument: self.instrument@,
            timestamp: self.timestamp,
            open: self.open@,
            high: self.high@,
            low: self.low@,
            close: self.close@,
            volume: self.volume,
            complete: self.complete,
        }
    }
}

/// The error for a response that arrived but holds no usable data.
pub open spec fn unusable(message: Seq<char>) -> ErrorView {
    ErrorView::ApiError { code: 0, message }
}

impl OandaPrice {
    /// The quote of this price, given what its time reads as: the first bid
    /// and the first ask must be there, then the time must read as an instant.
    pub open spec fn tick_at(self, instant: Result<Timestamp, Seq<char>>) -> Result<
        PriceQuoteView,
        ErrorView,
    > {
        if self.bids@.len() == 0 {
            Err(unusable("No bid data."@))
        } else if self.asks@.len() == 0 {
            Err(unusable("No ask data."@))
        } else {
            match instant {
                Err(message) => Err(unusable("Invalid timestamp: "@ + message)),
                Ok(timestamp) => Ok(
                    PriceQuoteView {
                        instrument: self.instrument@,
                        timestamp,
                        bid: self.bids@[0].price@,
                        ask: self.asks@[0].price@,
                    },
                ),
            }
        }
    }

    /// The quote of this price.
    pub open spec fn tick(self) -> Result<PriceQuoteView, ErrorView> {
        self.tick_at(rfc3339_instant(self.time@))
    }

    /// Builds the quote of this price from what its time was read as.
    pub fn to_tick_at(&self, instant: Result<Timestamp, String>) -> (result: Result<
        PriceQuote,
        Error,
    >)
        ensures
            match result {
                Ok(quote) => self.tick_at(text_error(instant)) == Ok::<PriceQuoteView, ErrorView>(
                    quote@,
                ),
                Err(error) => self.tick_at(text_error(instant)) == Err::<
                    PriceQuoteView,
                    ErrorView,
                >(error@),
            },
    {
        if self.bids.len() == 0 {
            return Err(Error::ApiError { code: 0, message: String::from_str("No bid data.") });
        }
        if self.asks.len() == 0 {
            return Err(Error::ApiError { code: 0, message: String::from_str("No ask data.") });
        }
        match instant {
            Err(message) => Err(
                Error::ApiError {
                    code: 0,
                    message: String::from_str("Invalid timestamp: ").concat(message.as_str()),
                },
            ),
            Ok(timestamp) => Ok(
                PriceQuote {
                    instrument: self.instrument.clone(),
                    timestamp,
                    bid: self.bids[0].price.clone(),
                    ask: self.asks[0].price.clone(),
                },
            ),
        }
    }

    /// Builds the quote of this price.
    pub fn to_tick(&self) -> (result: Result<PriceQuote, Error>)
        ensures
            match result {
                Ok(quote) => self.tick() == Ok::<PriceQuoteView, ErrorView>(quote@),
                Err(error) => self.tick() == Err::<PriceQuoteView, ErrorView>(error@),
            },
    {
        self.to_tick_at(parse_rfc3339(self.time.as_str()))
    }
}

/// A reading of a time, with the error message as mathematical text.
pub open spec fn text_error(instant: Result<Timestamp, String>) -> Result<Timestamp, Seq<char>> {
    match instant {
        Ok(timestamp) => Ok(timestamp),
        Err(message) => Err(message@),
    }
}

impl OandaCandle {
    /// The prices that count for this candle: the mid prices, else the bid
    /// prices.
    pub open spec fn price_data(self) -> Option<OandaPriceData> {
        match self.mid {
            Some(data) => Some(data),
            None => self.bid,
        }
    }

    /// The candle for `instrument`, given what its time reads as: prices must
    /// be there, then the time must read as an instant.
    pub open spec fn candle_at(self, instrument: Seq<char>, instant: Result<Timestamp, Seq<char>>)
        -> Result<CandleQuoteView, ErrorView> {
        match self.price_data() {
            None => Err(unusable("No price data in candle."@)),
            Some(data) => match instant {
                Err(message) => Err(unusable("Failed to parse datetime: "@ + message)),
                Ok(timestamp) => Ok(
                    CandleQuoteView {
                        instrument,
                        timestamp,
                        open: data.o@,
                        high: data.h@,
                        low: data.l@,
                        close: data.c@,
                        volume: self.volume,
                        complete: self.complete,
                    },
                ),
            },
        }
    }

    /// The candle for `instrument`.
    pub open spec fn candle(self, instrument: Seq<char>) -> Result<CandleQuoteView, ErrorView> {
        self.candle_at(instrument, rfc3339_instant(self.time@))
    }

    /// Builds the candle for `instrument` from what its time was read as.
    pub fn to_candle_at(&self, instrument: String, instant: Result<Timestamp, String>) -> (result:
        Result<CandleQuote, Error>)
        ensures
            match result {
                Ok(quote) => self.candle_at(instrument@, text_error(instant)) == Ok::<
                    CandleQuoteView,
                    ErrorView,
                >(quote@),
                Err(error) => self.candle_at(instrument@, text_error(instant)) == Err::<
                    CandleQuoteView,
                    ErrorView,
                >(error@),
            },
    {
        let data = match &self.mid {
            Some(data) => data,
            None => match &self.bid {
                Some(data) => data,
                None => {
                    return Err(
                        Error::ApiError {
                            code: 0,
                            message: String::from_str("No price data in candle."),
                        },
                    );
                },
            },
        };
        match instant {
            Err(message) => Err(
                Error::ApiError {
                    code: 0,
                    message: String::from_str("Failed to parse datetime: ").concat(
                        message.as_str(),
                    ),
                },
            ),
            Ok(timestamp) => Ok(
                CandleQuote {
                    instrument,
                    timestamp,
                    open: data.o.clone(),
                    high: data.h.clone(),
                    low: data.l.clone(),
                    close: data.c.clone(),
                    volume: self.volume,
                    complete: self.complete,
                },
            ),
        }
    }

    /// Builds the candle for `instrument`.
    pub fn to_candle(&self, instrument: String) -> (result: Result<CandleQuote, Error>)
        ensures
            match result {
                Ok(quote) => self.candle(instrument@) == Ok::<CandleQuoteView, ErrorView>(quote@),
                Err(error) => self.candle(instrument@) == Err::<CandleQuoteView, ErrorView>(
                    error@,
                ),
            },
    {
        self.to_candle_at(instrument, parse_rfc3339(self.time.as_str()))
    }
}

} // verus!
