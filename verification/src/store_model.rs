use vstd::prelude::*;

use crate::routes::subscriptions_confirm::{confirm_lookup_decision, ConfirmActionView};

verus! {

/// The status of a stored subscription.
pub enum SubscriptionStatus {
    PendingConfirmation,
    Confirmed,
}

/// The stored subscriptions, by id, and the tokens, each with the id of its
/// subscription, as the service's statements leave them; with the tokens that
/// confirmation requests have presented so far.
#[verifier::ext_equal]
pub struct StoreState {
    pub subscriptions: Map<u128, SubscriptionStatus>,
    pub tokens: Map<Seq<char>, u128>,
    pub presented_tokens: Set<Seq<char>>,
}

/// The requests that change the store: a subscription that reaches its commit,
/// with the id of the inserted subscriber and the token stored for it, and a
/// confirmation that presents a token.
pub enum StoreRequest {
    Subscribe { id: u128, token: Seq<char> },
    Confirm { token: Seq<char> },
}

/// Nothing stored and nothing presented.
pub open spec fn empty_store() -> StoreState {
    StoreState { subscriptions: Map::empty(), tokens: Map::empty(), presented_tokens: Set::empty() }
}

/// A committed subscription adds a pending subscriber and its token; when the
/// id or the token is already taken, the insertion breaks a key, the
/// transaction is rolled back and nothing changes.
pub open spec fn after_subscription(s: StoreState, id: u128, token: Seq<char>) -> StoreState {
    if s.subscriptions.contains_key(id) || s.tokens.contains_key(token) {
        s
    } else {
        StoreState {
            subscriptions: s.subscriptions.insert(id, SubscriptionStatus::PendingConfirmation),
            tokens: s.tokens.insert(token, id),
            ..s
        }
    }
}

/// What looking a token up gives: the id of its subscription, if it is stored.
pub open spec fn token_lookup(s: StoreState, token: Seq<char>) -> Option<u128> {
    if s.tokens.contains_key(token) {
        Some(s.tokens[token])
    } else {
        None
    }
}

/// A confirmation request: the token is looked up, and when the decision is
/// to mark a subscriber, that subscriber's row is set to confirmed (an update
/// of an id that has no row changes nothing).
pub open spec fn after_confirmation(s: StoreState, token: Seq<char>) -> StoreState {
    let seen = StoreState { presented_tokens: s.presented_tokens.insert(token), ..s };
    match confirm_lookup_decision(Ok(token_lookup(s, token))) {
        ConfirmActionView::MarkConfirmed(id) => if s.subscriptions.contains_key(id) {
            StoreState { subscriptions: seen.subscriptions.insert(id, SubscriptionStatus::Confirmed), ..seen }
        } else {
            seen
        },
        _ => seen,
    }
}

pub open spec fn after_request(s: StoreState, r: StoreRequest) -> StoreState {
    match r {
        StoreRequest::Subscribe { id, token } => after_subscription(s, id, token),
        StoreRequest::Confirm { token } => after_confirmation(s, token),
    }
}

/// The store after a sequence of requests, from an empty store.
pub open spec fn after_requests(requests: Seq<StoreRequest>) -> StoreState
    decreases requests.len(),
{
    if requests.len() == 0 {
        empty_store()
    } else {
        after_request(after_requests(requests.drop_last()), requests.last())
    }
}

/// Whether a token of the store belongs to the subscription `id`.
pub open spec fn token_of(s: StoreState, t: Seq<char>, id: u128) -> bool {
    s.tokens.contains_key(t) && s.tokens[t] == id
}

/// What the store keeps: every token belongs to a stored subscription, every
/// subscription has exactly one token, and a subscription is confirmed only
/// if a confirmation request presented its token.
pub open spec fn store_invariant(s: StoreState) -> bool {
    &&& forall|t: Seq<char>| #[trigger] s.tokens.contains_key(t) ==> s.subscriptions.contains_key(s.tokens[t])
    &&& forall|id: u128| #[trigger] s.subscriptions.contains_key(id) ==> exists|t: Seq<char>| #[trigger] token_of(s, t, id)
    &&& forall|t1: Seq<char>, t2: Seq<char>|
        #[trigger] s.tokens.contains_key(t1) && #[trigger] s.tokens.contains_key(t2) && s.tokens[t1] == s.tokens[t2] ==> t1 == t2
    &&& forall|id: u128|
        #[trigger] s.subscriptions.contains_key(id) && s.subscriptions[id] == SubscriptionStatus::Confirmed
            ==> exists|t: Seq<char>| #[trigger] token_of(s, t, id) && s.presented_tokens.contains(t)
}

proof fn lemma_subscription_keeps_invariant(s: StoreState, id: u128, token: Seq<char>)
    requires
        store_invariant(s),
    ensures
        store_invariant(after_subscription(s, id, token)),
{
    let n = after_subscription(s, id, token);
    if !(s.subscriptions.contains_key(id) || s.tokens.contains_key(token)) {
        assert forall|i: u128| #[trigger] n.subscriptions.contains_key(i) implies exists|t: Seq<char>| #[trigger] token_of(n, t, i) by {
            if i == id {
                assert(token_of(n, token, i));
            } else {
                let t = choose|t: Seq<char>| #[trigger] token_of(s, t, i);
                assert(token_of(n, t, i));
            }
        }
        assert forall|i: u128|
            #[trigger] n.subscriptions.contains_key(i) && n.subscriptions[i] == SubscriptionStatus::Confirmed
            implies exists|t: Seq<char>| #[trigger] token_of(n, t, i) && n.presented_tokens.contains(t) by {
            assert(i != id);
            let t = choose|t: Seq<char>| #[trigger] token_of(s, t, i) && s.presented_tokens.contains(t);
            assert(token_of(n, t, i));
        }
        assert forall|t1: Seq<char>, t2: Seq<char>|
            #[trigger] n.tokens.contains_key(t1) && #[trigger] n.tokens.contains_key(t2) && n.tokens[t1] == n.tokens[t2]
            implies t1 == t2 by {
            if t1 != token && t2 != token {
                assert(s.tokens.contains_key(t1) && s.tokens.contains_key(t2));
            } else if t1 == token && t2 != token {
                assert(s.tokens.contains_key(t2));
                assert(s.subscriptions.contains_key(s.tokens[t2]));
            } else if t2 == token && t1 != token {
                assert(s.tokens.contains_key(t1));
                assert(s.subscriptions.contains_key(s.tokens[t1]));
            }
        }
    }
}

proof fn lemma_confirmation_keeps_invariant(s: StoreState, token: Seq<char>)
    requires
        store_invariant(s),
    ensures
        store_invariant(after_confirmation(s, token)),
{
    let n = after_confirmation(s, token);
    assert forall|i: u128| #[trigger] n.subscriptions.contains_key(i) implies exists|t: Seq<char>| #[trigger] token_of(n, t, i) by {
        let t = choose|t: Seq<char>| #[trigger] token_of(s, t, i);
        assert(token_of(n, t, i));
    }
    assert forall|i: u128|
        #[trigger] n.subscriptions.contains_key(i) && n.subscriptions[i] == SubscriptionStatus::Confirmed
        implies exists|t: Seq<char>| #[trigger] token_of(n, t, i) && n.presented_tokens.contains(t) by {
        if s.tokens.contains_key(token) && s.tokens[token] == i {
            assert(token_of(n, token, i));
        } else {
            assert(s.subscriptions[i] == SubscriptionStatus::Confirmed);
            let t = choose|t: Seq<char>| #[trigger] token_of(s, t, i) && s.presented_tokens.contains(t);
            assert(token_of(n, t, i));
        }
    }
}

/// Whatever subscriptions and confirmations reach the store, from an empty
/// store: every token belongs to a stored subscription, every subscription has
/// exactly one token, every subscription is pending or confirmed, and one is
/// confirmed only if a confirmation request presented its token.
pub proof fn lemma_store_invariant(requests: Seq<StoreRequest>)
    ensures
        store_invariant(after_requests(requests)),
    decreases requests.len(),
{
    if requests.len() > 0 {
        lemma_store_invariant(requests.drop_last());
        let s = after_requests(requests.drop_last());
        match requests.last() {
            StoreRequest::Subscribe { id, token } => lemma_subscription_keeps_invariant(s, id, token),
            StoreRequest::Confirm { token } => lemma_confirmation_keeps_invariant(s, token),
        }
    }
}

/// Presenting the token stored for a subscription confirms that subscription;
/// the request is then answered 200 once the update went through.
pub proof fn lemma_stored_token_confirms_its_subscription(s: StoreState, token: Seq<char>, id: u128)
    requires
        store_invariant(s),
        token_of(s, token, id),
    ensures
        confirm_lookup_decision(Ok(token_lookup(s, token))) == ConfirmActionView::MarkConfirmed(id),
        after_confirmation(s, token).subscriptions[id] == SubscriptionStatus::Confirmed,
{
}

/// A token that is not stored is answered 401 and confirms no one.
pub proof fn lemma_unknown_token_confirms_no_one(s: StoreState, token: Seq<char>)
    requires
        !s.tokens.contains_key(token),
    ensures
        confirm_lookup_decision(Ok(token_lookup(s, token))) == ConfirmActionView::Respond(401),
        after_confirmation(s, token).subscriptions == s.subscriptions,
{
}

/// A subscriber whose subscription was committed with token `t`, and who then
/// presents `t` (the token the confirmation email carries), is confirmed.
pub proof fn lemma_confirming_after_subscribing(s: StoreState, id: u128, token: Seq<char>)
    requires
        store_invariant(s),
        !s.subscriptions.contains_key(id),
        !s.tokens.contains_key(token),
    ensures
        after_confirmation(after_subscription(s, id, token), token).subscriptions[id] == SubscriptionStatus::Confirmed,
{
    lemma_subscription_keeps_invariant(s, id, token);
    lemma_stored_token_confirms_its_subscription(after_subscription(s, id, token), token, id);
}

} // verus!
