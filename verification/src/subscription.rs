//! The stored subscription and its lifecycle.

use crate::domain::new_subscriber::NewSubscriber;
use crate::domain::subscriber_email::SubscriberEmail;
use crate::domain::subscriber_name::SubscriberName;
use crate::token::ConfirmationToken;
use chrono::Utc;
use uuid::Uuid;
use vstd::prelude::*;

verus! {

/// The identifier of one subscription: the 128 bits of a UUID.
#[derive(Debug, Clone, Copy, PartialEq, Eq, Structural)]
pub struct SubscriptionId(pub u128);

/// Where a subscription stands in its lifecycle.
#[derive(Debug, Clone, Copy, PartialEq, Eq, Structural)]
pub enum SubscriptionStatus {
    PendingConfirmation,
    Confirmed,
}

impl SubscriptionStatus {
    /// The status after a confirmation. The lifecycle has this one edge:
    /// a pending subscription becomes confirmed and a confirmed one stays
    /// so.
    pub open spec fn after_confirmation(self) -> SubscriptionStatus {
        SubscriptionStatus::Confirmed
    }

    /// The status after a confirmation.
    pub fn confirm(self) -> (r: SubscriptionStatus)
        ensures
            r == self.after_confirmation(),
    {
        SubscriptionStatus::Confirmed
    }

    /// The word under which the status is stored.
    pub open spec fn word(self) -> Seq<char> {
        match self {
            SubscriptionStatus::PendingConfirmation => "pending_confirmation"@,
            SubscriptionStatus::Confirmed => "confirmed"@,
        }
    }

    /// The word under which the status is stored.
    pub fn as_str(&self) -> (r: &'static str)
        ensures
            r@ == self.word(),
    {
        match self {
            SubscriptionStatus::PendingConfirmation => "pending_confirmation",
            SubscriptionStatus::Confirmed => "confirmed",
        }
    }
}

/// `Uuid::new_v4`, read as its 128 bits: a random version 4 UUID. Nothing
/// is stated of the value.
#[verifier::external_body]
fn fresh_id() -> (id: SubscriptionId) {
    SubscriptionId(Uuid::new_v4().as_u128())
}

/// `Utc::now`, read as microseconds since the Unix epoch. Nothing is stated
/// of the value. The call panics on a machine whose clock stands before
/// the epoch.
#[verifier::external_body]
fn now_micros() -> (now: i64) {
    Utc::now().timestamp_micros()
}

/// What a subscription holds, as plain values.
pub struct SubscriptionView {
    pub id: SubscriptionId,
    pub email: Seq<char>,
    pub name: Seq<char>,
    pub subscribed_at: i64,
    pub status: SubscriptionStatus,
}

impl SubscriptionView {
    /// The same subscription, confirmed.
    pub open spec fn confirmed(self) -> SubscriptionView {
        SubscriptionView { status: self.status.after_confirmation(), ..self }
    }
}

/// One subscription as it is stored. Identifier, address, name and time of
/// subscription are fixed when it is made; only the status moves, and only
/// forward.
pub struct Subscription {
    id: SubscriptionId,
    email: SubscriberEmail,
    name: SubscriberName,
    subscribed_at: i64,
    status: SubscriptionStatus,
}

impl View for Subscription {
    type V = SubscriptionView;

    closed spec fn view(&self) -> SubscriptionView {
        SubscriptionView {
            id: self.id,
            email: self.email@,
            name: self.name@,
            subscribed_at: self.subscribed_at,
            status: self.status,
        }
    }
}

impl Subscription {
    /// The subscription of `subscriber` under `id`, made at
    /// `subscribed_at` (microseconds since the Unix epoch) and pending
    /// confirmation.
    pub fn pending(subscriber: NewSubscriber, id: SubscriptionId, subscribed_at: i64) -> (r:
        Subscription)
        ensures
            r@ == (SubscriptionView {
                id,
                email: subscriber.email@,
                name: subscriber.name@,
                subscribed_at,
                status: SubscriptionStatus::PendingConfirmation,
            }),
    {
        Subscription {
            id,
            email: subscriber.email,
            name: subscriber.name,
            subscribed_at,
            status: SubscriptionStatus::PendingConfirmation,
        }
    }

    /// The subscription of `subscriber` under a fresh random identifier,
    /// made now and pending confirmation.
    pub fn open(subscriber: NewSubscriber) -> (r: Subscription)
        ensures
            r@.email == subscriber.email@,
            r@.name == subscriber.name@,
            r@.status == SubscriptionStatus::PendingConfirmation,
    {
        let id = fresh_id();
        let now = now_micros();
        Subscription::pending(subscriber, id, now)
    }

    /// Confirms the subscription. Confirming a confirmed subscription
    /// changes nothing.
    pub fn confirm(&mut self)
        ensures
            final(self)@ == old(self)@.confirmed(),
    {
        self.status = self.status.confirm();
    }

    pub fn id(&self) -> (r: SubscriptionId)
        ensures
            r == self@.id,
    {
        self.id
    }

    pub fn email(&self) -> (r: &SubscriberEmail)
        ensures
            r@ == self@.email,
    {
        &self.email
    }

    pub fn name(&self) -> (r: &SubscriberName)
        ensures
            r@ == self@.name,
    {
        &self.name
    }

    pub fn subscribed_at(&self) -> (r: i64)
        ensures
            r == self@.subscribed_at,
    {
        self.subscribed_at
    }

    pub fn status(&self) -> (r: SubscriptionStatus)
        ensures
            r == self@.status,
    {
        self.status
    }
}

/// The association of a token with the subscription that it confirms.
pub struct TokenRecord {
    pub token: ConfirmationToken,
    pub subscription_id: SubscriptionId,
}

/// Confirming is idempotent: a second confirmation changes nothing.
pub proof fn lemma_confirmation_is_idempotent(s: SubscriptionView)
    ensures
        s.confirmed().status == SubscriptionStatus::Confirmed,
        s.confirmed().confirmed() == s.confirmed(),
{
}

} // verus!
