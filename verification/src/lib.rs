//! Newsletter subscription intake: validated subscriber identities, the
//! subscription record and its lifecycle, confirmation tokens, and the
//! sign-up and confirmation workflows as explicit state machines.

pub mod domain;
pub mod message;
pub mod routes;
pub mod startup;
pub mod store;
pub mod subscription;
pub mod token;

pub use routes::subscriptions::FormData;
