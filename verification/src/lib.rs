//! Client-side core of an OANDA REST connector.
//!
//! The crate holds the parts of the connector that decide things: how a
//! finished HTTP attempt is classified, whether and when it is retried, which
//! URL a request goes to, and how the rate limiter is consulted. Sending
//! requests and sleeping are left to the caller.

pub mod backoff;
pub mod classifier;
pub mod client;
pub mod config;
pub mod endpoints;
pub mod error;
pub mod models;
pub mod pipeline;
pub mod rate_limiter;
pub mod text;

pub use client::OandaClient;
pub use client::OandaClientBuilder;
pub use config::OandaConfig;
pub use endpoints::Endpoints;
pub use error::Error;
pub use models::Granularity;
pub use rate_limiter::RateLimitPermit;
pub use rate_limiter::RateLimiter;
