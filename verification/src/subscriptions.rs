//! The transactional subscription workflow.
//!
//! `subscribe` validates the caller's input, then records a pending
//! subscriber together with a fresh confirmation token as one atomic step:
//! if any storage step fails, the store is left exactly as it was. Only
//! after the rows are durable is the confirmation notification built, for
//! the caller to dispatch; a dispatch failure never unwinds the rows.

use vstd::prelude::*;
#[allow(unused_imports)]
use vstd::string::StrSliceExecFns;
#[allow(unused_imports)]
use vstd::string::StringExecFns;
use crate::domain::{is_valid_email, is_valid_subscriber_name, NewSubscriber, SubscriberEmail,
    SuscriberName};
use crate::store::{Store, SubscriberRecord, SubscriptionStatus, TokenRecord};

verus! {

/// The form body of a subscription request, as decoded at the HTTP edge.
pub struct SubscriptionForm {
    pub email: String,
    pub name: String,
}

impl NewSubscriber {
    /// Validates a raw form into a `NewSubscriber`: the name is checked
    /// first, then the email, and the exact strings are kept.
    pub fn try_from(form: SubscriptionForm) -> (r: Result<NewSubscriber, String>)
        ensures
            r is Ok <==> (is_valid_subscriber_name(form.name@) && is_valid_email(form.email@)),
            r matches Ok(n) ==> n.name@ == form.name@ && n.email@ == form.email@,
    {
        let name = match SuscriberName::parse(form.name) {
            Ok(name) => name,
            Err(e) => { return Err(e); },
        };
        let email = match SubscriberEmail::parse(form.email) {
            Ok(email) => email,
            Err(e) => { return Err(e); },
        };
        Ok(NewSubscriber { email, name })
    }
}

/// A character that can appear in a subscription token: a lower-case
/// hexadecimal digit.
pub open spec fn is_token_char(c: char) -> bool {
    ('0' <= c && c <= '9') || ('a' <= c && c <= 'f')
}

/// A subscription token as minted here: 32 lower-case hex characters.
pub open spec fn is_well_formed_token(t: Seq<char>) -> bool {
    t.len() == 32 && forall|i: int| 0 <= i < t.len() ==> is_token_char(#[trigger] t[i])
}

/// Relies on uuid's `Uuid::new_v4` and `Simple::encode_lower`: a fresh
/// random 128-bit identity, written as exactly 32 lower-case hexadecimal
/// characters. The value is random, so nothing is promised beyond its shape.
#[verifier::external_body]
fn generate_subscription_token() -> (r: String)
    ensures
        is_well_formed_token(r@),
{
    let id = uuid::Uuid::new_v4();
    let mut buf = uuid::Uuid::encode_buffer();
    let s = id.simple().encode_lower(&mut buf);
    s.to_string()
}

/// Relies on uuid's `Uuid::new_v4` (via `Uuid::as_u128`): a fresh random
/// identifier. Random, so nothing is promised about the value.
#[verifier::external_body]
fn fresh_subscriber_id() -> u128 {
    uuid::Uuid::new_v4().as_u128()
}

/// Relies on chrono's `Utc::now` (via `DateTime::timestamp`): the current
/// time in seconds. It depends on the clock, so nothing is promised.
#[verifier::external_body]
fn now_timestamp() -> i64 {
    chrono::Utc::now().timestamp()
}

/// Which storage steps of the workflow the backend will fail; the outcome
/// of each step is decided outside this library and handed in as an event.
#[derive(Clone, Copy, PartialEq, Eq, Structural, Debug)]
pub struct StorageFaults {
    pub begin_fails: bool,
    pub insert_subscriber_fails: bool,
    pub insert_token_fails: bool,
    pub commit_fails: bool,
}

impl StorageFaults {
    /// Whether any step of the transaction fails.
    pub open spec fn any(self) -> bool {
        self.begin_fails || self.insert_subscriber_fails || self.insert_token_fails
            || self.commit_fails
    }

    /// A backend where every storage step succeeds.
    pub fn none() -> (r: StorageFaults)
        ensures
            !r.any(),
    {
        StorageFaults {
            begin_fails: false,
            insert_subscriber_fails: false,
            insert_token_fails: false,
            commit_fails: false,
        }
    }
}

/// Why a subscription request failed.
#[derive(Clone, Copy, PartialEq, Eq, Structural, Debug)]
pub enum SubscribeError {
    /// The caller's input was rejected; nothing was touched.
    ValidationError,
    /// A storage step or the notification dispatch failed.
    UnexpectedError,
}

impl SubscribeError {
    /// The HTTP status this failure maps to.
    pub fn status_code(&self) -> (r: u16)
        ensures
            r == (match self {
                SubscribeError::ValidationError => 400u16,
                SubscribeError::UnexpectedError => 500u16,
            }),
    {
        match self {
            SubscribeError::ValidationError => 400,
            SubscribeError::UnexpectedError => 500,
        }
    }
}

/// The confirmation link: `{base_url}/subscription/confirm?subscription_token={token}`.
pub open spec fn confirmation_link_of(base_url: Seq<char>, token: Seq<char>) -> Seq<char> {
    base_url + "/subscription/confirm?subscription_token="@ + token
}

/// The HTML body of the confirmation notification.
pub open spec fn welcome_html_of(link: Seq<char>) -> Seq<char> {
    "Welcome to our newsletter!<br />Click <a href=\""@ + link
        + "\">here</a> to confirm your subscription."@
}

/// The plain-text body of the confirmation notification.
pub open spec fn welcome_text_of(link: Seq<char>) -> Seq<char> {
    "Welcome to our newsletter!\nVisit "@ + link + " to confirm your subscription."@
}

/// A confirmation notification, ready for the external sender.
pub struct ConfirmationEmail {
    pub to: String,
    pub subject: String,
    pub html_body: String,
    pub text_body: String,
}

/// Inserts the subscriber row with status pending confirmation. One step of
/// the transaction: the surrounding workflow guarantees the paired token.
pub fn insert_suscriber(store: &mut Store, newsubscriber: &NewSubscriber, id: u128, subscribed_at: i64)
    ensures
        final(store).subscribers@.len() == old(store).subscribers@.len() + 1,
        final(store).subscribers@.drop_last() == old(store).subscribers@,
        final(store).subscribers@.last().id == id,
        final(store).subscribers@.last().email@ == newsubscriber.email@,
        final(store).subscribers@.last().name@ == newsubscriber.name@,
        final(store).subscribers@.last().subscribed_at == subscribed_at,
        final(store).subscribers@.last().status is PendingConfirmation,
        final(store).users@ == old(store).users@,
        final(store).tokens@ == old(store).tokens@,
{
    let email = String::from_str(newsubscriber.email.as_ref());
    let name = String::from_str(newsubscriber.name.as_ref());
    store.subscribers.push(
        SubscriberRecord {
            id,
            email,
            name,
            subscribed_at,
            status: SubscriptionStatus::PendingConfirmation,
        },
    );
    proof {
        assert(store.subscribers@.drop_last() =~= old(store).subscribers@);
    }
}

/// Inserts the token row linking a token to a subscriber id. The other
/// mutating step of the transaction.
pub fn store_token(store: &mut Store, subscriber_id: u128, subscription_token: String)
    ensures
        final(store).tokens@ == old(store).tokens@.push(
            TokenRecord { subscription_token, subscriber_id },
        ),
        final(store).users@ == old(store).users@,
        final(store).subscribers@ == old(store).subscribers@,
{
    store.tokens.push(TokenRecord { subscription_token, subscriber_id });
}

/// Builds the confirmation notification for a freshly recorded subscriber:
/// the subject, and bodies carrying the confirmation link that embeds the
/// token.
pub fn send_email(base_url: &str, newsubscriber: NewSubscriber, token: &str) -> (r:
    ConfirmationEmail)
    ensures
        r.to@ == newsubscriber.email@,
        r.subject@ == "Welcome!"@,
        r.html_body@ == welcome_html_of(confirmation_link_of(base_url@, token@)),
        r.text_body@ == welcome_text_of(confirmation_link_of(base_url@, token@)),
{
    let mut link = String::from_str(base_url);
    link.append("/subscription/confirm?subscription_token=");
    link.append(token);

    let mut html = String::from_str("Welcome to our newsletter!<br />Click <a href=\"");
    html.append(link.as_str());
    html.append("\">here</a> to confirm your subscription.");

    let mut text = String::from_str("Welcome to our newsletter!\nVisit ");
    text.append(link.as_str());
    text.append(" to confirm your subscription.");

    ConfirmationEmail {
        to: String::from_str(newsubscriber.email.as_ref()),
        subject: String::from_str("Welcome!"),
        html_body: html,
        text_body: text,
    }
}

/// The subscription transaction with the identifiers fixed: deterministic,
/// so the outcome is pinned for every input. A storage fault, or an
/// identifier the store already holds (which the real backend would refuse
/// as a key violation), aborts the transaction with the store unchanged;
/// otherwise exactly one pending subscriber row and one linked token row
/// are appended, built from the arguments alone.
pub fn subscribe_transaction(
    store: &mut Store,
    newsubscriber: &NewSubscriber,
    faults: StorageFaults,
    id: u128,
    subscription_token: String,
    subscribed_at: i64,
) -> (r: Result<(), SubscribeError>)
    requires
        old(store).wf(),
    ensures
        final(store).wf(),
        final(store).users@ == old(store).users@,
        r is Err ==> *final(store) == *old(store),
        !(r matches Err(SubscribeError::ValidationError)),
        faults.any() ==> r == Err::<(), SubscribeError>(SubscribeError::UnexpectedError),
        !faults.any() ==> (r is Err <==> (old(store).has_subscriber_id(id) || old(store).has_token(
            subscription_token@,
        ))),
        r is Ok ==> {
            let sub = final(store).subscribers@.last();
            let tok = final(store).tokens@.last();
            &&& final(store).subscribers@.drop_last() == old(store).subscribers@
            &&& final(store).subscribers@.len() == old(store).subscribers@.len() + 1
            &&& final(store).tokens@.drop_last() == old(store).tokens@
            &&& final(store).tokens@.len() == old(store).tokens@.len() + 1
            &&& sub.id == id
            &&& sub.email@ == newsubscriber.email@
            &&& sub.name@ == newsubscriber.name@
            &&& sub.subscribed_at == subscribed_at
            &&& sub.status is PendingConfirmation
            &&& tok.subscription_token@ == subscription_token@
            &&& tok.subscriber_id == id
        },
{
    if faults.begin_fails || faults.insert_subscriber_fails || faults.insert_token_fails
        || faults.commit_fails {
        return Err(SubscribeError::UnexpectedError);
    }
    if store.contains_subscriber_id(id) {
        return Err(SubscribeError::UnexpectedError);
    }
    if store.contains_token(subscription_token.as_str()) {
        return Err(SubscribeError::UnexpectedError);
    }
    let ghost pre = *store;
    let ghost token_view = subscription_token@;
    insert_suscriber(store, newsubscriber, id, subscribed_at);
    store_token(store, id, subscription_token);
    proof {
        assert(store.subscribers@ =~= pre.subscribers@.push(store.subscribers@.last()));
        assert(store.tokens@ =~= pre.tokens@.push(store.tokens@.last()));
        lemma_subscribe_preserves_wf(pre, *store, id, token_view);
    }
    Ok(())
}

/// The subscription workflow over the store model.
///
/// Invalid input is rejected before any mutation. The transaction then runs
/// with a freshly drawn subscriber id and token: a fault in any storage
/// step (or a collision of the fresh identifiers, which the real backend
/// would reject as a key violation) aborts it with the store unchanged. On
/// success exactly one pending subscriber row and one linked token row are
/// appended, and the returned notification carries the link embedding that
/// very token.
pub fn subscribe(store: &mut Store, base_url: &str, form: SubscriptionForm, faults: StorageFaults)
    -> (r: Result<ConfirmationEmail, SubscribeError>)
    requires
        old(store).wf(),
    ensures
        final(store).wf(),
        r is Err ==> *final(store) == *old(store),
        r == Err::<ConfirmationEmail, SubscribeError>(SubscribeError::ValidationError) <==> !(
        is_valid_subscriber_name(form.name@) && is_valid_email(form.email@)),
        (is_valid_subscriber_name(form.name@) && is_valid_email(form.email@) && faults.any())
            ==> r == Err::<ConfirmationEmail, SubscribeError>(SubscribeError::UnexpectedError),
        r matches Ok(notification) ==> {
            let sub = final(store).subscribers@.last();
            let tok = final(store).tokens@.last();
            &&& !faults.any()
            &&& final(store).subscribers@ == old(store).subscribers@.push(sub)
            &&& final(store).tokens@ == old(store).tokens@.push(tok)
            &&& final(store).users@ == old(store).users@
            &&& sub.email@ == form.email@
            &&& sub.name@ == form.name@
            &&& sub.status is PendingConfirmation
            &&& !old(store).has_subscriber_id(sub.id)
            &&& tok.subscriber_id == sub.id
            &&& !old(store).has_token(tok.subscription_token@)
            &&& is_well_formed_token(tok.subscription_token@)
            &&& notification.to@ == form.email@
            &&& notification.subject@ == "Welcome!"@
            &&& notification.html_body@ == welcome_html_of(
                confirmation_link_of(base_url@, tok.subscription_token@),
            )
            &&& notification.text_body@ == welcome_text_of(
                confirmation_link_of(base_url@, tok.subscription_token@),
            )
        },
{
    let newsubscriber = match NewSubscriber::try_from(form) {
        Ok(n) => n,
        Err(_) => { return Err(SubscribeError::ValidationError); },
    };
    let id = fresh_subscriber_id();
    let token = generate_subscription_token();
    let subscribed_at = now_timestamp();
    match subscribe_transaction(store, &newsubscriber, faults, id, token.clone(), subscribed_at) {
        Ok(()) => {
            let notification = send_email(base_url, newsubscriber, token.as_str());
            proof {
                assert(store.subscribers@ =~= old(store).subscribers@.push(
                    store.subscribers@.last(),
                ));
                assert(store.tokens@ =~= old(store).tokens@.push(store.tokens@.last()));
            }
            Ok(notification)
        },
        Err(e) => Err(e),
    }
}

/// Appending one pending subscriber with a fresh id together with one fresh
/// token pointing at it preserves the store invariant.
proof fn lemma_subscribe_preserves_wf(pre: Store, post: Store, id: u128, token: Seq<char>)
    requires
        pre.wf(),
        !pre.has_subscriber_id(id),
        !pre.has_token(token),
        post.users@ == pre.users@,
        post.subscribers@ == pre.subscribers@.push(post.subscribers@.last()),
        post.subscribers@.last().id == id,
        post.tokens@ == pre.tokens@.push(post.tokens@.last()),
        post.tokens@.last().subscription_token@ == token,
        post.tokens@.last().subscriber_id == id,
    ensures
        post.wf(),
{
    let ns = pre.subscribers@.len() as int;
    let nt = pre.tokens@.len() as int;
    assert forall|i: int, j: int|
        0 <= i < j < post.subscribers@.len() implies post.subscribers@[i].id
        != post.subscribers@[j].id by {
        if j == ns {
            if post.subscribers@[i].id == id {
                assert(pre.has_subscriber_id(id));
            }
        } else {
            assert(pre.subscribers@[i].id != pre.subscribers@[j].id);
        }
    }
    assert forall|i: int, j: int|
        0 <= i < j < post.tokens@.len() implies post.tokens@[i].subscription_token@
        != post.tokens@[j].subscription_token@ by {
        if j == nt {
            if post.tokens@[i].subscription_token@ == token {
                assert(pre.has_token(token));
            }
        } else {
            assert(pre.tokens@[i].subscription_token@ != pre.tokens@[j].subscription_token@);
        }
    }
    assert forall|i: int, j: int|
        0 <= i < j < post.tokens@.len() implies post.tokens@[i].subscriber_id
        != post.tokens@[j].subscriber_id by {
        if j == nt {
            if post.tokens@[i].subscriber_id == id {
                assert(pre.has_subscriber_id(pre.tokens@[i].subscriber_id));
            }
        } else {
            assert(pre.tokens@[i].subscriber_id != pre.tokens@[j].subscriber_id);
        }
    }
    assert forall|i: int|
        0 <= i < post.tokens@.len() implies post.has_subscriber_id(
        #[trigger] post.tokens@[i].subscriber_id,
    ) by {
        if i == nt {
            assert(post.subscribers@[ns].id == id);
        } else {
            assert(pre.has_subscriber_id(pre.tokens@[i].subscriber_id));
            let k = choose|k: int|
                0 <= k < pre.subscribers@.len() && pre.subscribers@[k].id == pre.tokens@[
                    i
                ].subscriber_id;
            assert(post.subscribers@[k].id == post.tokens@[i].subscriber_id);
        }
    }
    assert forall|i: int|
        0 <= i < post.subscribers@.len() implies post.has_token_for(
        #[trigger] post.subscribers@[i].id,
    ) by {
        if i == ns {
            assert(post.tokens@[nt].subscriber_id == post.subscribers@[ns].id);
        } else {
            assert(pre.has_token_for(pre.subscribers@[i].id));
            let k = choose|k: int|
                0 <= k < pre.tokens@.len() && pre.tokens@[k].subscriber_id == pre.subscribers@[
                    i
                ].id;
            assert(post.tokens@[k].subscriber_id == post.subscribers@[i].id);
        }
    }
}

/// In a well-formed store every subscriber has exactly one token: at least
/// one token row points at it, and no two token rows do. A storage read
/// right after a successful `subscribe` therefore shows the new pending
/// subscriber with exactly one associated token.
pub proof fn lemma_exactly_one_token(s: Store, id: u128)
    requires
        s.wf(),
        s.has_subscriber_id(id),
    ensures
        s.has_token_for(id),
        forall|j: int, k: int|
            (0 <= j < s.tokens@.len() && 0 <= k < s.tokens@.len() && #[trigger] (
            s.tokens@[j].subscriber_id) == id && #[trigger] (s.tokens@[k].subscriber_id) == id)
                ==> j == k,
{
    let i = choose|i: int| 0 <= i < s.subscribers@.len() && s.subscribers@[i].id == id;
    assert(s.subscribers@[i].id == id);
    assert(s.has_token_for(s.subscribers@[i].id));
    assert forall|j: int, k: int|
        (0 <= j < s.tokens@.len() && 0 <= k < s.tokens@.len() && #[trigger] (
        s.tokens@[j].subscriber_id) == id && #[trigger] (s.tokens@[k].subscriber_id) == id) implies
        j == k by {
        if j < k {
            assert(s.tokens@[j].subscriber_id != s.tokens@[k].subscriber_id);
        } else if k < j {
            assert(s.tokens@[k].subscriber_id != s.tokens@[j].subscriber_id);
        }
    }
}

} // verus!
