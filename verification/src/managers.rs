//! The registry of live subscriptions and the records it keeps.
pub mod active_sub;
pub mod laws;
pub mod sub;
