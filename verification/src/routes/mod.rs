//! The two operations offered to the transport layer, as plain decisions.

pub mod subscriptions;
pub mod subscriptions_confirm;
