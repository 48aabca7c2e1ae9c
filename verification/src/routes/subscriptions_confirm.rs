//! Confirming: from a token to a confirmed subscription.
//!
//! Like the sign-up, the confirmation is a state machine whose actions the
//! caller performs.

use crate::subscription::SubscriptionId;
use vstd::prelude::*;

verus! {

/// The query of a confirmation request.
pub struct Parameters {
    pub subscription_token: String,
}

/// Why a confirmation failed.
#[derive(Debug, Clone, Copy, PartialEq, Eq, Structural)]
pub enum ConfirmationError {
    /// The store knows no subscription for the token. Why it does not is
    /// never told.
    UnknownToken,
    /// The store could not be asked or did not take the change.
    StorageFailure,
}

/// How the store answered.
#[derive(Debug, Clone, Copy, PartialEq, Eq, Structural)]
pub enum ConfirmReply {
    /// The token belongs to this subscription.
    Found(SubscriptionId),
    /// The token belongs to no subscription.
    NotFound,
    /// The status was written.
    Updated,
    /// The store failed.
    Failed,
}

/// What the caller is asked to do next.
pub enum ConfirmAction {
    /// Look up the subscription that this token confirms.
    FindSubscriptionId(String),
    /// Set the status of this subscription to confirmed.
    SetStatusConfirmed(SubscriptionId),
    /// Stop, and report this outcome.
    Finish(Result<(), ConfirmationError>),
}

/// The outside work that a confirmation is waiting for.
#[derive(Debug, Clone, Copy)]
pub enum ConfirmState {
    FindingSubscription,
    Confirming,
    Finished(Result<(), ConfirmationError>),
}

impl ConfirmState {
    /// The outcome after `reply`, where the confirmation ends with it.
    pub open spec fn outcome_after(self, reply: ConfirmReply) -> Option<
        Result<(), ConfirmationError>,
    > {
        match (self, reply) {
            (ConfirmState::FindingSubscription, ConfirmReply::Found(_)) => None,
            (ConfirmState::FindingSubscription, ConfirmReply::NotFound) => Some(
                Err(ConfirmationError::UnknownToken),
            ),
            (ConfirmState::Confirming, ConfirmReply::Updated) => Some(Ok(())),
            (ConfirmState::Finished(outcome), _) => Some(outcome),
            _ => Some(Err(ConfirmationError::StorageFailure)),
        }
    }

    /// The state and the action that follow `reply`. Only a token that the
    /// store knows leads to a change of status; a reply that does not
    /// answer the work under way counts as a failure of the store.
    pub open spec fn next(self, reply: ConfirmReply) -> (ConfirmState, ConfirmAction) {
        match self.outcome_after(reply) {
            Some(outcome) => (ConfirmState::Finished(outcome), ConfirmAction::Finish(outcome)),
            None => (
                ConfirmState::Confirming,
                ConfirmAction::SetStatusConfirmed(reply->Found_0),
            ),
        }
    }

    /// Takes the store's reply and gives the next state with the next
    /// action.
    pub fn advance(self, reply: ConfirmReply) -> (r: (ConfirmState, ConfirmAction))
        ensures
            r == self.next(reply),
    {
        let outcome = match self {
            ConfirmState::FindingSubscription => match reply {
                ConfirmReply::Found(id) => {
                    return (ConfirmState::Confirming, ConfirmAction::SetStatusConfirmed(id));
                },
                ConfirmReply::NotFound => Err(ConfirmationError::UnknownToken),
                _ => Err(ConfirmationError::StorageFailure),
            },
            ConfirmState::Confirming => match reply {
                ConfirmReply::Updated => Ok(()),
                _ => Err(ConfirmationError::StorageFailure),
            },
            ConfirmState::Finished(outcome) => outcome,
        };
        (ConfirmState::Finished(outcome), ConfirmAction::Finish(outcome))
    }
}

/// Opens the confirmation with the token of a request: the first action
/// looks the token up.
pub fn begin(parameters: Parameters) -> (r: (ConfirmState, ConfirmAction))
    ensures
        r.0 == ConfirmState::FindingSubscription,
        r.1 == ConfirmAction::FindSubscriptionId(parameters.subscription_token),
{
    (
        ConfirmState::FindingSubscription,
        ConfirmAction::FindSubscriptionId(parameters.subscription_token),
    )
}

} // verus!
