//! The decisions behind each endpoint.

pub mod subscriptions;
pub mod subscriptions_confirm;
