//! Addresses and limits that the service fixes.

use vstd::prelude::*;

verus! {

/// The base URL of the REST API.
pub const TRADIER_API_BASE_URL: &'static str = "https://api.tradier.com";

/// The base URL of the WebSocket streaming API.
pub const TRADIER_WS_BASE_URL: &'static str = "wss://ws.tradier.com";

/// The base URL of the HTTP streaming API.
pub const TRADIER_STREAM_HTTP_BASE_URL: &'static str = "https://stream.tradier.com";

/// The path of the market events stream, under either streaming base URL.
pub const TRADIER_STREAM_EVENTS_PATH: &'static str = "/v1/markets/events";

/// The time, in minutes, after which a session counts as expired.
pub const TRADIER_SESSION_TIMEOUT: i64 = 5;

} // verus!
