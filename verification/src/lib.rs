//! Client-side streaming sessions for a brokerage event feed.
//!
//! The crate holds the decisions of the streaming client: the guard that
//! admits one session at a time, the negotiation of a stream endpoint, the
//! subscription message and the classification of inbound frames. Every
//! function states what it returns in its contract. Network transport is left
//! to the caller, which hands requests out and replies back in.

pub mod accounts;
pub mod address;
pub mod client;
pub mod clock;
pub mod common;
pub mod config;
pub mod constants;
pub mod error;
pub mod json;
pub mod text;
pub mod types;
pub mod user;
pub mod utils;
pub mod wssession;

pub use config::{Config, Credentials, Environment, RestApiConfig, StreamingConfig};
pub use error::{Error, Result};
