//! The types that callers exchange with the library, in one place.

pub use crate::accounts::history::HistoryQuery;
pub use crate::accounts::types::{AccountNumber, EventType};
pub use crate::utils::OneOrMany;
pub use crate::common::AccountType;
pub use crate::user::types::{AccountClassification, AccountStatus};
