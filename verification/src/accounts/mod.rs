//! Accounts: how an account is named and how its history is asked for.

pub mod history;
pub mod types;
