//! Helpers for reading what the service sends.

pub mod one_or_many;

pub use one_or_many::OneOrMany;
