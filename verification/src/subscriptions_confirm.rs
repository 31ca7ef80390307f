//! The confirmation endpoint: an idempotent state transition keyed by the
//! subscription token.
//!
//! An unknown token never mutates anything. A known token confirms its
//! subscriber; confirming an already-confirmed subscriber succeeds silently
//! and changes nothing, so replaying a confirmation link is harmless.

use vstd::prelude::*;
use crate::store::{same_subscriber_but_status, Store, SubscriberRecord, SubscriptionStatus};

verus! {

/// The query parameters of a confirmation request.
pub struct Parameters {
    pub subscription_token: String,
}

/// An infrastructure fault while confirming; it maps to a server error.
#[derive(Clone, Copy, PartialEq, Eq, Structural, Debug)]
pub struct ConfirmationError;

impl ConfirmationError {
    /// The HTTP status this failure maps to.
    pub fn status_code(&self) -> (r: u16)
        ensures
            r == 500u16,
    {
        500
    }
}

/// Which storage steps of the confirmation transaction the backend will
/// fail; decided outside this library and handed in as an event.
#[derive(Clone, Copy, PartialEq, Eq, Structural, Debug)]
pub struct ConfirmFaults {
    pub begin_fails: bool,
    pub lookup_fails: bool,
    pub update_fails: bool,
    pub commit_fails: bool,
}

impl ConfirmFaults {
    /// Whether any step of the transaction fails.
    pub open spec fn any(self) -> bool {
        self.begin_fails || self.lookup_fails || self.update_fails || self.commit_fails
    }

    /// A backend where every storage step succeeds.
    pub fn none() -> (r: ConfirmFaults)
        ensures
            !r.any(),
    {
        ConfirmFaults {
            begin_fails: false,
            lookup_fails: false,
            update_fails: false,
            commit_fails: false,
        }
    }
}

/// The confirmation transition on the subscriptions table: the rows with
/// the given id become confirmed, every other row and every other column is
/// untouched.
pub open spec fn confirm_rel(
    pre: Seq<SubscriberRecord>,
    post: Seq<SubscriberRecord>,
    id: u128,
) -> bool {
    &&& post.len() == pre.len()
    &&& forall|i: int|
        0 <= i < pre.len() ==> {
            &&& same_subscriber_but_status(pre[i], #[trigger] post[i])
            &&& post[i].status == (if pre[i].id == id {
                SubscriptionStatus::Confirmed
            } else {
                pre[i].status
            })
        }
}

/// The subscriber id stored for a token, if the token is known.
pub fn get_subscriber_id_from_token(token: &str, store: &Store) -> (r: Option<u128>)
    requires
        store.tokens_wf(),
    ensures
        match r {
            Some(id) => store.has_token(token@) && id == store.token_for(token@).subscriber_id,
            None => !store.has_token(token@),
        },
        r is Some ==> store.has_subscriber_id(r->0),
{
    store.lookup_token(token)
}

/// Marks the subscriber with the given id as confirmed; every other row
/// and column stays as it was.
pub fn confirm_token(id: u128, store: &mut Store)
    ensures
        confirm_rel(old(store).subscribers@, final(store).subscribers@, id),
        final(store).users@ == old(store).users@,
        final(store).tokens@ == old(store).tokens@,
        old(store).wf() ==> final(store).wf(),
{
    store.set_confirmed(id);
}

/// The confirmation endpoint over the store model, returning the HTTP
/// status of the response.
///
/// A request without a token is rejected before anything runs. A storage
/// fault aborts the transaction and nothing is committed. An unknown token
/// is unauthorized and never mutates a subscriber row. A known token
/// confirms its subscriber, and doing so again succeeds with no further
/// change.
pub fn confirm(store: &mut Store, parameters: Option<&Parameters>, faults: ConfirmFaults) -> (status:
    u16)
    requires
        old(store).wf(),
    ensures
        final(store).wf(),
        final(store).users@ == old(store).users@,
        final(store).tokens@ == old(store).tokens@,
        parameters is None ==> status == 400 && *final(store) == *old(store),
        parameters is Some && faults.any() ==> status == 500 && *final(store) == *old(store),
        parameters matches Some(p) ==> ((!faults.any() && !old(store).has_token(
            p.subscription_token@,
        )) ==> status == 401 && *final(store) == *old(store)),
        parameters matches Some(p) ==> ((!faults.any() && old(store).has_token(
            p.subscription_token@,
        )) ==> status == 200 && confirm_rel(
            old(store).subscribers@,
            final(store).subscribers@,
            old(store).token_for(p.subscription_token@).subscriber_id,
        )),
{
    let parameters = match parameters {
        Some(p) => p,
        None => { return 400; },
    };
    if faults.begin_fails || faults.lookup_fails || faults.update_fails || faults.commit_fails {
        return 500;
    }
    match get_subscriber_id_from_token(parameters.subscription_token.as_str(), store) {
        None => 401,
        Some(subscriber_id) => {
            confirm_token(subscriber_id, store);
            200
        },
    }
}

/// Idempotence of confirmation: applying the transition for the same id a
/// second time changes nothing — every row keeps the exact state the first
/// transition gave it.
pub proof fn lemma_confirm_idempotent(
    first: Seq<SubscriberRecord>,
    second: Seq<SubscriberRecord>,
    third: Seq<SubscriberRecord>,
    id: u128,
)
    requires
        confirm_rel(first, second, id),
        confirm_rel(second, third, id),
    ensures
        third.len() == second.len(),
        forall|i: int|
            0 <= i < second.len() ==> same_subscriber_but_status(second[i], #[trigger] third[i])
                && third[i].status == second[i].status,
{
    assert forall|i: int|
        0 <= i < second.len() implies same_subscriber_but_status(second[i], #[trigger] third[i])
        && third[i].status == second[i].status by {
        assert(same_subscriber_but_status(first[i], second[i]));
        assert(same_subscriber_but_status(second[i], third[i]));
        assert(second[i].id == first[i].id);
    }
}

} // verus!
