//! A store of subscriptions and tokens that lives in memory: the model
//! against which the two workflows are stated, and a store for callers that
//! need no database.

use crate::domain::new_subscriber::rejection;
use crate::message::ConfirmationEmail;
use crate::routes::subscriptions::{FormData, Reply, SubscribeAction, SubscriptionError};
use crate::routes::subscriptions_confirm::{
    ConfirmAction,
    ConfirmReply,
    ConfirmationError,
    Parameters,
};
use crate::token::is_token;
use crate::startup::ApplicationBaseUrl;
use crate::subscription::{
    Subscription,
    SubscriptionId,
    SubscriptionStatus,
    SubscriptionView,
    TokenRecord,
};
use vstd::prelude::*;

verus! {

/// What a store holds, as plain values: the subscriptions in the order in
/// which they were stored, and each token with the subscription that it
/// confirms.
pub struct StoreView {
    pub subscriptions: Seq<SubscriptionView>,
    pub tokens: Seq<(Seq<char>, SubscriptionId)>,
}

/// The record at `i` is the first of `records` that holds `token`.
pub open spec fn is_first_match(
    records: Seq<(Seq<char>, SubscriptionId)>,
    token: Seq<char>,
    i: int,
) -> bool {
    &&& 0 <= i < records.len()
    &&& records[i].0 == token
    &&& forall|j: int| 0 <= j < i ==> (#[trigger] records[j]).0 != token
}

impl StoreView {
    /// The subscription that `token` confirms: that of the first record
    /// that holds the token, if there is one.
    pub open spec fn find(self, token: Seq<char>) -> Option<SubscriptionId> {
        if exists|i: int| is_first_match(self.tokens, token, i) {
            Some(self.tokens[choose|i: int| is_first_match(self.tokens, token, i)].1)
        } else {
            None
        }
    }

    /// The store after the subscription `id` was confirmed.
    pub open spec fn with_confirmed(self, id: SubscriptionId) -> StoreView {
        StoreView {
            subscriptions: Seq::new(
                self.subscriptions.len(),
                |i: int|
                    if self.subscriptions[i].id == id {
                        self.subscriptions[i].confirmed()
                    } else {
                        self.subscriptions[i]
                    },
            ),
            tokens: self.tokens,
        }
    }

    /// The outcome of a confirmation with `token`, and the store after it:
    /// a token that the store knows confirms its subscription, any other
    /// changes nothing.
    pub open spec fn confirm(self, token: Seq<char>) -> (Result<(), ConfirmationError>, StoreView) {
        match self.find(token) {
            Some(id) => (Ok(()), self.with_confirmed(id)),
            None => (Err(ConfirmationError::UnknownToken), self),
        }
    }

    /// The store after `subscription` was stored with `token` to confirm
    /// it.
    pub open spec fn with_subscription(self, subscription: SubscriptionView, token: Seq<char>)
        -> StoreView {
        StoreView {
            subscriptions: self.subscriptions.push(subscription),
            tokens: self.tokens.push((token, subscription.id)),
        }
    }
}

/// `after` is `before` with one more subscription, pending and held under
/// this name and this address, and with one more token, which confirms
/// that subscription.
pub open spec fn signed_up(before: StoreView, after: StoreView, name: Seq<char>, email: Seq<char>)
    -> bool {
    let subscription = after.subscriptions.last();
    let token = after.tokens.last().0;
    &&& after == before.with_subscription(subscription, token)
    &&& subscription.name == name
    &&& subscription.email == email
    &&& subscription.status == SubscriptionStatus::PendingConfirmation
    &&& is_token(token)
}

/// A store in memory.
pub struct MemoryStore {
    subscriptions: Vec<Subscription>,
    tokens: Vec<TokenRecord>,
}

impl View for MemoryStore {
    type V = StoreView;

    closed spec fn view(&self) -> StoreView {
        StoreView {
            subscriptions: Seq::new(self.subscriptions@.len(), |i: int| self.subscriptions@[i]@),
            tokens: Seq::new(
                self.tokens@.len(),
                |i: int| (self.tokens@[i].token@, self.tokens@[i].subscription_id),
            ),
        }
    }
}

impl MemoryStore {
    /// A store that holds nothing.
    pub fn new() -> (r: MemoryStore)
        ensures
            r@.subscriptions.len() == 0,
            r@.tokens.len() == 0,
    {
        MemoryStore { subscriptions: Vec::new(), tokens: Vec::new() }
    }

    /// The number of subscriptions stored.
    pub fn subscription_count(&self) -> (n: usize)
        ensures
            n == self@.subscriptions.len(),
    {
        self.subscriptions.len()
    }

    /// The number of tokens stored.
    pub fn token_count(&self) -> (n: usize)
        ensures
            n == self@.tokens.len(),
    {
        self.tokens.len()
    }

    /// The subscription that was stored as the `i`-th, counted from 0.
    pub fn subscription(&self, i: usize) -> (r: Option<&Subscription>)
        ensures
            (match r {
                Some(subscription) => i < self@.subscriptions.len() && subscription@
                    == self@.subscriptions[i as int],
                None => i >= self@.subscriptions.len(),
            }),
    {
        if i < self.subscriptions.len() {
            Some(&self.subscriptions[i])
        } else {
            None
        }
    }

    /// Stores a subscription behind those that are there.
    pub fn insert_subscription(&mut self, subscription: Subscription)
        ensures
            final(self)@.subscriptions == old(self)@.subscriptions.push(subscription@),
            final(self)@.tokens == old(self)@.tokens,
    {
        self.subscriptions.push(subscription);
        assert(self@.subscriptions =~= old(self)@.subscriptions.push(subscription@));
        assert(self@.tokens =~= old(self)@.tokens);
    }

    /// Stores a token with the subscription that it confirms.
    pub fn insert_token(&mut self, record: TokenRecord)
        ensures
            final(self)@.tokens == old(self)@.tokens.push((record.token@, record.subscription_id)),
            final(self)@.subscriptions == old(self)@.subscriptions,
    {
        self.tokens.push(record);
        assert(self@.tokens =~= old(self)@.tokens.push((record.token@, record.subscription_id)));
        assert(self@.subscriptions =~= old(self)@.subscriptions);
    }

    /// The subscription that `token` confirms, if the store knows the
    /// token.
    pub fn find_subscription_id_by_token(&self, token: &String) -> (r: Option<SubscriptionId>)
        ensures
            r == self@.find(token@),
    {
        let mut i: usize = 0;
        while i < self.tokens.len()
            invariant
                i <= self.tokens@.len(),
                forall|j: int| 0 <= j < i ==> (#[trigger] self@.tokens[j]).0 != token@,
            decreases self.tokens@.len() - i,
        {
            if self.tokens[i].token.matches(token) {
                proof {
                    assert(is_first_match(self@.tokens, token@, i as int));
                    let c = choose|c: int| is_first_match(self@.tokens, token@, c);
                    assert(c == i);
                }
                return Some(self.tokens[i].subscription_id);
            }
            i = i + 1;
        }
        None
    }

    /// Sets the status of every subscription stored under `id` to
    /// confirmed.
    pub fn set_status_confirmed(&mut self, id: SubscriptionId)
        ensures
            final(self)@ == old(self)@.with_confirmed(id),
    {
        let mut i: usize = 0;
        while i < self.subscriptions.len()
            invariant
                i <= self.subscriptions@.len(),
                self.subscriptions@.len() == old(self).subscriptions@.len(),
                self.tokens == old(self).tokens,
                forall|j: int|
                    0 <= j < i ==> (#[trigger] self.subscriptions@[j])@ == old(
                        self,
                    )@.with_confirmed(id).subscriptions[j],
                forall|j: int|
                    i <= j < self.subscriptions@.len() ==> #[trigger] self.subscriptions@[j] == old(
                        self,
                    ).subscriptions@[j],
            decreases self.subscriptions@.len() - i,
        {
            if self.subscriptions[i].id() == id {
                self.subscriptions[i].confirm();
            }
            i = i + 1;
        }
        assert(self@.subscriptions =~= old(self)@.with_confirmed(id).subscriptions);
        assert(self@.tokens =~= old(self)@.tokens);
    }

    /// Runs a confirmation against this store: a token that the store
    /// knows confirms its subscription, any other is refused and changes
    /// nothing.
    pub fn confirm(&mut self, parameters: Parameters) -> (r: Result<(), ConfirmationError>)
        ensures
            (r, final(self)@) == old(self)@.confirm(parameters.subscription_token@),
    {
        let (state, action) = crate::routes::subscriptions_confirm::begin(parameters);
        let reply = match action {
            ConfirmAction::FindSubscriptionId(token) => match self.find_subscription_id_by_token(
                &token,
            ) {
                Some(id) => ConfirmReply::Found(id),
                None => ConfirmReply::NotFound,
            },
            _ => ConfirmReply::Failed,
        };
        let (state, action) = state.advance(reply);
        let reply = match action {
            ConfirmAction::SetStatusConfirmed(id) => {
                self.set_status_confirmed(id);
                ConfirmReply::Updated
            },
            ConfirmAction::Finish(outcome) => {
                return outcome;
            },
            _ => ConfirmReply::Failed,
        };
        let (_, action) = state.advance(reply);
        match action {
            ConfirmAction::Finish(outcome) => outcome,
            _ => Err(ConfirmationError::StorageFailure),
        }
    }

    /// Runs a sign-up against this store, with `outbox` for a transport
    /// that never fails. A valid submission adds one pending subscription,
    /// one token for it, and one message that confirms with that token; an
    /// invalid one is refused and changes nothing.
    pub fn subscribe(
        &mut self,
        outbox: &mut Vec<ConfirmationEmail>,
        form: FormData,
        base_url: &ApplicationBaseUrl,
    ) -> (r: Result<(), SubscriptionError>)
        ensures
            (match r {
                Ok(()) => {
                    &&& rejection(form.name@, form.email@) is None
                    &&& signed_up(old(self)@, final(self)@, form.name@, form.email@)
                    &&& final(outbox)@.len() == old(outbox)@.len() + 1
                    &&& final(outbox)@.drop_last() == old(outbox)@
                    &&& final(outbox)@.last().confirms(
                        form.email@,
                        base_url.0@,
                        final(self)@.tokens.last().0,
                    )
                },
                Err(e) => {
                    &&& rejection(form.name@, form.email@) matches Some(v) && e
                        == SubscriptionError::InvalidInput(v)
                    &&& final(self)@ == old(self)@
                    &&& final(outbox)@ == old(outbox)@
                },
            }),
    {
        let (state, action) = match crate::routes::subscriptions::begin(form, base_url) {
            Ok(opened) => opened,
            Err(e) => {
                return Err(e);
            },
        };
        if let SubscribeAction::InsertSubscription(subscription) = action {
            self.insert_subscription(subscription);
        }
        let (state, action) = state.advance(Reply::Done);
        if let SubscribeAction::InsertToken(record) = action {
            self.insert_token(record);
        }
        let (state, action) = state.advance(Reply::Done);
        if let SubscribeAction::SendEmail(email) = action {
            outbox.push(email);
        }
        assert(outbox@.drop_last() =~= old(outbox)@);
        let (_, action) = state.advance(Reply::Done);
        match action {
            SubscribeAction::Finish(outcome) => outcome,
            _ => Ok(()),
        }
    }
}

/// A token that the store knows confirms every subscription stored under
/// its identifier, and a second confirmation with it succeeds as well and
/// changes nothing.
pub proof fn lemma_confirming_twice(store: StoreView, token: Seq<char>)
    requires
        store.find(token) is Some,
    ensures
        store.confirm(token).0 is Ok,
        forall|i: int|
            0 <= i < store.subscriptions.len() && store.subscriptions[i].id == store.find(token)->0
                ==> (#[trigger] store.confirm(token).1.subscriptions[i]).status
                == SubscriptionStatus::Confirmed,
        store.confirm(token).1.confirm(token) == (Ok::<(), ConfirmationError>(()), store.confirm(token).1),
{
    let id = store.find(token)->0;
    let once = store.with_confirmed(id);
    assert(once.tokens == store.tokens);
    assert(once.find(token) == store.find(token));
    assert(once.with_confirmed(id).subscriptions =~= once.subscriptions);
}

/// A confirmation never takes a subscription back to pending, and never
/// adds, drops or rewrites one.
pub proof fn lemma_confirmation_only_moves_forward(store: StoreView, token: Seq<char>, i: int)
    requires
        0 <= i < store.subscriptions.len(),
    ensures
        store.confirm(token).1.subscriptions.len() == store.subscriptions.len(),
        store.confirm(token).1.tokens == store.tokens,
        store.confirm(token).1.subscriptions[i] == store.subscriptions[i]
            || store.confirm(token).1.subscriptions[i] == store.subscriptions[i].confirmed(),
        store.subscriptions[i].status == SubscriptionStatus::Confirmed ==> store.confirm(
            token,
        ).1.subscriptions[i] == store.subscriptions[i],
{
}

/// The token with which a subscription was stored is known to the store
/// afterwards; where the token was new to the store, it confirms that very
/// subscription.
pub proof fn lemma_issued_token_is_known(
    store: StoreView,
    subscription: SubscriptionView,
    token: Seq<char>,
)
    ensures
        store.with_subscription(subscription, token).find(token) is Some,
        store.find(token) is None ==> store.with_subscription(subscription, token).find(token)
            == Some(subscription.id),
{
    let after = store.with_subscription(subscription, token);
    let n = store.tokens.len() as int;
    assert(after.tokens[n].0 == token);
    lemma_first_match_exists(after.tokens, token, n);
    if store.find(token) is None {
        let c = choose|c: int| is_first_match(after.tokens, token, c);
        if c < n {
            assert(store.tokens[c] == after.tokens[c]);
            assert forall|j: int| 0 <= j < c implies (#[trigger] store.tokens[j]).0 != token by {
                assert(store.tokens[j] == after.tokens[j]);
            }
            assert(is_first_match(store.tokens, token, c));
        }
    }
}

/// After a sign-up, a confirmation with the token that it stored succeeds;
/// where that token was new to the store, it confirms the subscription
/// that was signed up.
pub proof fn lemma_sign_up_then_confirm(
    before: StoreView,
    after: StoreView,
    name: Seq<char>,
    email: Seq<char>,
)
    requires
        signed_up(before, after, name, email),
    ensures
        after.confirm(after.tokens.last().0).0 is Ok,
        before.find(after.tokens.last().0) is None ==> after.confirm(
            after.tokens.last().0,
        ).1.subscriptions.last() == after.subscriptions.last().confirmed(),
{
    lemma_issued_token_is_known(before, after.subscriptions.last(), after.tokens.last().0);
}

/// Where some record up to `i` holds `token`, a first one does.
proof fn lemma_first_match_exists(
    records: Seq<(Seq<char>, SubscriptionId)>,
    token: Seq<char>,
    i: int,
)
    requires
        0 <= i < records.len(),
        records[i].0 == token,
    ensures
        exists|c: int| is_first_match(records, token, c),
    decreases i,
{
    if exists|j: int| 0 <= j < i && (#[trigger] records[j]).0 == token {
        let j = choose|j: int| 0 <= j < i && (#[trigger] records[j]).0 == token;
        lemma_first_match_exists(records, token, j);
    } else {
        assert(is_first_match(records, token, i));
    }
}

} // verus!
