//! The user's profile: how its accounts are classified.

pub mod types;

pub use types::{AccountClassification, AccountStatus};
