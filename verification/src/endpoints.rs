//! Paths of the REST endpoints.

use vstd::prelude::*;
use vstd::string::StringExecFns;

verus! {

/// API endpoint paths.
pub struct Endpoints;

/// The text of `prefix`, then `middle`, then `suffix`.
pub open spec fn path_of(prefix: Seq<char>, middle: Seq<char>, suffix: Seq<char>) -> Seq<char> {
    prefix + middle + suffix
}

/// Builds `prefix`, `middle`, `suffix` into one owned path.
fn join_path(prefix: &str, middle: &str, suffix: &str) -> (path: String)
    ensures
        path@ == path_of(prefix@, middle@, suffix@),
{
    let mut path = String::from_str(prefix);
    path.append(middle);
    path.append(suffix);
    path
}

impl Endpoints {
    /// Pricing of instruments: `GET /v3/accounts/{accountID}/pricing`.
    pub fn pricing(account_id: &str) -> (path: String)
        ensures
            path@ == path_of("/v3/accounts/"@, account_id@, "/pricing"@),
    {
        join_path("/v3/accounts/", account_id, "/pricing")
    }

    /// Candles of an instrument: `GET /v3/instruments/{instrument}/candles`.
    pub fn candles(instrument: &str) -> (path: String)
        ensures
            path@ == path_of("/v3/instruments/"@, instrument@, "/candles"@),
    {
        join_path("/v3/instruments/", instrument, "/candles")
    }

    /// Account summary: `GET /v3/accounts/{accountID}`.
    pub fn account(account_id: &str) -> (path: String)
        ensures
            path@ == "/v3/accounts/"@ + account_id@,
    {
        String::from_str("/v3/accounts/").concat(account_id)
    }

    /// Instruments of an account: `GET /v3/accounts/{accountID}/instruments`.
    pub fn instruments(account_id: &str) -> (path: String)
        ensures
            path@ == path_of("/v3/accounts/"@, account_id@, "/instruments"@),
    {
        join_path("/v3/accounts/", account_id, "/instruments")
    }

    /// Orders: `POST /v3/accounts/{accountID}/orders`.
    pub fn orders(account_id: &str) -> (path: String)
        ensures
            path@ == path_of("/v3/accounts/"@, account_id@, "/orders"@),
    {
        join_path("/v3/accounts/", account_id, "/orders")
    }

    /// Open trades: `GET /v3/accounts/{accountID}/trades`.
    pub fn trades(account_id: &str) -> (path: String)
        ensures
            path@ == path_of("/v3/accounts/"@, account_id@, "/trades"@),
    {
        join_path("/v3/accounts/", account_id, "/trades")
    }

    /// Open positions: `GET /v3/accounts/{accountID}/positions`.
    pub fn positions(account_id: &str) -> (path: String)
        ensures
            path@ == path_of("/v3/accounts/"@, account_id@, "/positions"@),
    {
        join_path("/v3/accounts/", account_id, "/positions")
    }
}

} // verus!
