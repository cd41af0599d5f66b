//! Streaming sessions: the guard, the negotiation, the subscription and the
//! stream loop.

pub mod account;
pub mod filter;
pub mod market;
pub mod payload;
pub mod session;
pub mod session_manager;
pub mod stream;

pub use account::AccountSession;
pub use filter::MarketSessionFilter;
pub use market::MarketSession;
pub use payload::{MarketSessionPayload, MarketSessionPayloadBuilder};
pub use session_manager::{Permit, SessionManager};
