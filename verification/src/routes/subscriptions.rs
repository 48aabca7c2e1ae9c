//! Signing up: from a raw submission to a stored, pending subscription and
//! a confirmation message.
//!
//! The workflow is a state machine. Each state names the outside work that
//! is under way; [`SubscribeState::advance`] takes the reply to that work
//! and says what to do next. The caller performs the actions, one at a
//! time and in order, until it is told to finish.

use crate::domain::new_subscriber::{rejection, NewSubscriber};
use crate::domain::validation_error::ValidationError;
use crate::message::{confirmation_email, ConfirmationEmail};
use crate::startup::ApplicationBaseUrl;
use crate::subscription::{Subscription, SubscriptionId, SubscriptionStatus, TokenRecord};
use crate::token::{is_token, ConfirmationToken};
use vstd::prelude::*;

verus! {

/// A raw submission, before any validation.
pub struct FormData {
    pub email: String,
    pub name: String,
}

/// Why a sign-up failed.
#[derive(Debug, Clone, Copy, PartialEq, Eq, Structural)]
pub enum SubscriptionError {
    /// A field was rejected; nothing was stored and nothing sent.
    InvalidInput(ValidationError),
    /// The store refused the subscription or its token; nothing was sent.
    StorageFailure,
    /// The message could not be sent; subscription and token stay stored.
    DeliveryFailure,
}

/// How a piece of outside work ended.
#[derive(Debug, Clone, Copy, PartialEq, Eq, Structural)]
pub enum Reply {
    Done,
    Failed,
}

/// What the caller is asked to do next.
pub enum SubscribeAction {
    /// Store this subscription.
    InsertSubscription(Subscription),
    /// Store this token with the subscription that it confirms.
    InsertToken(TokenRecord),
    /// Send this message.
    SendEmail(ConfirmationEmail),
    /// Stop, and report this outcome.
    Finish(Result<(), SubscriptionError>),
}

/// The outside work that a sign-up is waiting for, with what is still to be
/// done after it.
pub enum SubscribeState {
    StoringSubscription { token: TokenRecord, email: ConfirmationEmail },
    StoringToken { email: ConfirmationEmail },
    SendingEmail,
    Finished(Result<(), SubscriptionError>),
}

impl SubscribeState {
    /// The state and the action that follow `reply`. A failure ends the
    /// sign-up at once, with the error of the step that failed; nothing is
    /// tried again and nothing is undone.
    pub open spec fn next(self, reply: Reply) -> (SubscribeState, SubscribeAction) {
        match (self, reply) {
            (SubscribeState::StoringSubscription { token, email }, Reply::Done) => (
                SubscribeState::StoringToken { email },
                SubscribeAction::InsertToken(token),
            ),
            (SubscribeState::StoringToken { email }, Reply::Done) => (
                SubscribeState::SendingEmail,
                SubscribeAction::SendEmail(email),
            ),
            (SubscribeState::SendingEmail, Reply::Done) => (
                SubscribeState::Finished(Ok(())),
                SubscribeAction::Finish(Ok(())),
            ),
            (SubscribeState::SendingEmail, Reply::Failed) => (
                SubscribeState::Finished(Err(SubscriptionError::DeliveryFailure)),
                SubscribeAction::Finish(Err(SubscriptionError::DeliveryFailure)),
            ),
            (SubscribeState::Finished(outcome), _) => (
                SubscribeState::Finished(outcome),
                SubscribeAction::Finish(outcome),
            ),
            (_, Reply::Failed) => (
                SubscribeState::Finished(Err(SubscriptionError::StorageFailure)),
                SubscribeAction::Finish(Err(SubscriptionError::StorageFailure)),
            ),
        }
    }

    /// Takes the reply to the work that was under way and gives the next
    /// state with the next action.
    pub fn advance(self, reply: Reply) -> (r: (SubscribeState, SubscribeAction))
        ensures
            r == self.next(reply),
    {
        match self {
            SubscribeState::StoringSubscription { token, email } => match reply {
                Reply::Done => (
                    SubscribeState::StoringToken { email },
                    SubscribeAction::InsertToken(token),
                ),
                Reply::Failed => (
                    SubscribeState::Finished(Err(SubscriptionError::StorageFailure)),
                    SubscribeAction::Finish(Err(SubscriptionError::StorageFailure)),
                ),
            },
            SubscribeState::StoringToken { email } => match reply {
                Reply::Done => (SubscribeState::SendingEmail, SubscribeAction::SendEmail(email)),
                Reply::Failed => (
                    SubscribeState::Finished(Err(SubscriptionError::StorageFailure)),
                    SubscribeAction::Finish(Err(SubscriptionError::StorageFailure)),
                ),
            },
            SubscribeState::SendingEmail => match reply {
                Reply::Done => (SubscribeState::Finished(Ok(())), SubscribeAction::Finish(Ok(()))),
                Reply::Failed => (
                    SubscribeState::Finished(Err(SubscriptionError::DeliveryFailure)),
                    SubscribeAction::Finish(Err(SubscriptionError::DeliveryFailure)),
                ),
            },
            SubscribeState::Finished(outcome) => (
                SubscribeState::Finished(outcome),
                SubscribeAction::Finish(outcome),
            ),
        }
    }
}

/// `state` and `action` open the sign-up of the subscriber with this name
/// and this address: the action stores a pending subscription that holds
/// both, and the state keeps a well-formed token for that subscription with the message
/// that confirms with it at `base_url`.
pub open spec fn opens_sign_up(
    state: SubscribeState,
    action: SubscribeAction,
    name: Seq<char>,
    email: Seq<char>,
    base_url: Seq<char>,
) -> bool {
    &&& action matches SubscribeAction::InsertSubscription(subscription)
    &&& state matches SubscribeState::StoringSubscription { token, email: message }
    &&& subscription@.name == name
    &&& subscription@.email == email
    &&& subscription@.status == SubscriptionStatus::PendingConfirmation
    &&& token.subscription_id == subscription@.id
    &&& is_token(token.token@)
    &&& message.confirms(email, base_url, token.token@)
}

/// `state` waits for the subscription `id` to be stored, and keeps `token`
/// for it with the message that carries the token to `to`.
pub open spec fn keeps_token(
    state: SubscribeState,
    token: ConfirmationToken,
    id: SubscriptionId,
    to: Seq<char>,
    base_url: Seq<char>,
) -> bool {
    &&& state matches SubscribeState::StoringSubscription { token: record, email }
    &&& record.token == token
    &&& record.subscription_id == id
    &&& email.confirms(to, base_url, token@)
}

/// Opens the sign-up for a subscription that is about to be stored and the
/// token that will confirm it: the first action stores the subscription,
/// and the state keeps the token with the message that carries it.
pub fn start(
    subscription: Subscription,
    token: ConfirmationToken,
    base_url: &ApplicationBaseUrl,
) -> (r: (SubscribeState, SubscribeAction))
    ensures
        r.1 == SubscribeAction::InsertSubscription(subscription),
        is_token(token@),
        keeps_token(r.0, token, subscription@.id, subscription@.email, base_url.0@),
{
    let email = confirmation_email(subscription.email().clone(), base_url.0.as_str(), &token);
    let record = TokenRecord { token, subscription_id: subscription.id() };
    (
        SubscribeState::StoringSubscription { token: record, email },
        SubscribeAction::InsertSubscription(subscription),
    )
}

/// Validates a submission and, where it is valid, opens its sign-up under a
/// fresh identifier and a fresh token. An invalid submission is rejected
/// with the first field that failed, before anything is asked of the store
/// or the transport.
pub fn begin(form: FormData, base_url: &ApplicationBaseUrl) -> (r: Result<
    (SubscribeState, SubscribeAction),
    SubscriptionError,
>)
    ensures
        (match r {
            Ok((state, action)) => {
                &&& rejection(form.name@, form.email@) is None
                &&& opens_sign_up(state, action, form.name@, form.email@, base_url.0@)
            },
            Err(e) => rejection(form.name@, form.email@) matches Some(v) && e
                == SubscriptionError::InvalidInput(v),
        }),
{
    match NewSubscriber::try_from(form) {
        Ok(subscriber) => {
            let subscription = Subscription::open(subscriber);
            let token = ConfirmationToken::generate();
            Ok(start(subscription, token, base_url))
        },
        Err(e) => Err(SubscriptionError::InvalidInput(e)),
    }
}

/// A sign-up that has finished stays finished, and from then on only
/// reports its outcome; and a refusal by the store ends it before any
/// message is sent.
pub proof fn lemma_failures_end_the_sign_up(state: SubscribeState, reply: Reply)
    ensures
        state matches SubscribeState::Finished(outcome) ==> state.next(reply) == (
            state,
            SubscribeAction::Finish(outcome),
        ),
        reply == Reply::Failed && !(state is Finished) ==> state.next(reply).0 is Finished
            && state.next(reply).1 is Finish,
        reply == Reply::Failed && (state is StoringSubscription || state is StoringToken)
            ==> state.next(reply).1 == SubscribeAction::Finish(
            Err(SubscriptionError::StorageFailure),
        ),
        state.next(reply).1 is SendEmail ==> state is StoringToken && reply == Reply::Done,
{
}

} // verus!
