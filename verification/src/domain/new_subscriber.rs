//! A validated intent to subscribe.

use crate::domain::subscriber_email::{is_email, SubscriberEmail};
use crate::domain::subscriber_name::{is_valid_name, SubscriberName};
use crate::domain::validation_error::ValidationError;
use crate::routes::subscriptions::FormData;
use vstd::prelude::*;

verus! {

/// A subscriber whose name and address both passed validation and who is
/// not stored yet.
pub struct NewSubscriber {
    pub email: SubscriberEmail,
    pub name: SubscriberName,
}

/// Why a submission with this name and this address is rejected, if it is:
/// the name is judged first.
pub open spec fn rejection(name: Seq<char>, email: Seq<char>) -> Option<ValidationError> {
    if !is_valid_name(name) {
        Some(ValidationError::InvalidName)
    } else if !is_email(email) {
        Some(ValidationError::InvalidEmail)
    } else {
        None
    }
}

impl NewSubscriber {
    /// Validates both fields of a submission. The subscriber exists only
    /// where both are valid, and then holds them as they were submitted;
    /// otherwise the error names the first field that failed.
    pub fn try_from(value: FormData) -> (r: Result<NewSubscriber, ValidationError>)
        ensures
            (match r {
                Ok(subscriber) => {
                    &&& rejection(value.name@, value.email@) is None
                    &&& subscriber.name@ == value.name@
                    &&& subscriber.email@ == value.email@
                },
                Err(e) => rejection(value.name@, value.email@) == Some(e),
            }),
    {
        let name = match SubscriberName::parse(value.name) {
            Ok(name) => name,
            Err(e) => {
                return Err(e);
            },
        };
        let email = match SubscriberEmail::parse(value.email) {
            Ok(email) => email,
            Err(e) => {
                return Err(e);
            },
        };
        Ok(NewSubscriber { email, name })
    }
}

} // verus!
