//! Validated value types of a subscriber's identity.

pub mod new_subscriber;
pub mod subscriber_email;
pub mod subscriber_name;
pub mod text;
pub mod validation_error;

pub use new_subscriber::NewSubscriber;
pub use subscriber_email::SubscriberEmail;
pub use subscriber_name::SubscriberName;
pub use validation_error::ValidationError;
