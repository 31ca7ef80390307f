//! An explicit model of the persistence backend: users, subscriber rows and
//! subscription tokens, with the well-formedness the workflows rely on.
//!
//! The workflows in this crate mutate a `Store` under exact contracts; the
//! transaction boundary of the real backend is reflected by the fact that a
//! failed workflow leaves the `Store` exactly as it was.

use vstd::prelude::*;
#[allow(unused_imports)]
use vstd::string::StrSliceExecFns;
#[allow(unused_imports)]
use vstd::string::StringExecFns;
use crate::strutil::str_eq;

verus! {

/// Subscription status of a subscriber row: the only transition is
/// pending confirmation to confirmed, and confirmed is terminal.
#[derive(Clone, Copy, PartialEq, Eq, Structural, Debug)]
pub enum SubscriptionStatus {
    PendingConfirmation,
    Confirmed,
}

/// One row of the users table. The password hash is a PHC string; it is
/// never interpreted here, only handed to the password checker.
pub struct UserRecord {
    pub user_id: u128,
    pub username: String,
    pub password_hash: String,
}

/// One row of the subscriptions table.
pub struct SubscriberRecord {
    pub id: u128,
    pub email: String,
    pub name: String,
    pub subscribed_at: i64,
    pub status: SubscriptionStatus,
}

/// One row of the subscription-tokens table, linking an opaque token to a
/// subscriber id.
pub struct TokenRecord {
    pub subscription_token: String,
    pub subscriber_id: u128,
}

/// Both records describe the same subscriber apart from the status column.
pub open spec fn same_subscriber_but_status(a: SubscriberRecord, b: SubscriberRecord) -> bool {
    &&& a.id == b.id
    &&& a.email@ == b.email@
    &&& a.name@ == b.name@
    &&& a.subscribed_at == b.subscribed_at
}

/// The persistence backend: one users table, one subscriptions table, one
/// subscription-tokens table.
pub struct Store {
    pub users: Vec<UserRecord>,
    pub subscribers: Vec<SubscriberRecord>,
    pub tokens: Vec<TokenRecord>,
}

impl Store {
    pub open spec fn has_username(self, name: Seq<char>) -> bool {
        exists|i: int| 0 <= i < self.users@.len() && self.users@[i].username@ == name
    }

    pub open spec fn user_index(self, name: Seq<char>) -> int {
        choose|i: int| 0 <= i < self.users@.len() && self.users@[i].username@ == name
    }

    /// The record for a username (meaningful only when `has_username` holds
    /// and usernames are unique).
    pub open spec fn user_for(self, name: Seq<char>) -> UserRecord {
        self.users@[self.user_index(name)]
    }

    pub open spec fn has_user_id(self, id: u128) -> bool {
        exists|i: int| 0 <= i < self.users@.len() && self.users@[i].user_id == id
    }

    pub open spec fn user_id_index(self, id: u128) -> int {
        choose|i: int| 0 <= i < self.users@.len() && self.users@[i].user_id == id
    }

    pub open spec fn has_subscriber_id(self, id: u128) -> bool {
        exists|i: int| 0 <= i < self.subscribers@.len() && self.subscribers@[i].id == id
    }

    pub open spec fn subscriber_index(self, id: u128) -> int {
        choose|i: int| 0 <= i < self.subscribers@.len() && self.subscribers@[i].id == id
    }

    /// The row for a subscriber id (meaningful only when `has_subscriber_id`
    /// holds and subscriber ids are unique).
    pub open spec fn subscriber_for(self, id: u128) -> SubscriberRecord {
        self.subscribers@[self.subscriber_index(id)]
    }

    pub open spec fn has_token(self, token: Seq<char>) -> bool {
        exists|i: int| 0 <= i < self.tokens@.len() && self.tokens@[i].subscription_token@ == token
    }

    pub open spec fn token_index(self, token: Seq<char>) -> int {
        choose|i: int|
            0 <= i < self.tokens@.len() && self.tokens@[i].subscription_token@ == token
    }

    /// The row for a token (meaningful only when `has_token` holds and
    /// tokens are unique).
    pub open spec fn token_for(self, token: Seq<char>) -> TokenRecord {
        self.tokens@[self.token_index(token)]
    }

    /// Usernames and user ids are unique.
    pub open spec fn users_wf(self) -> bool {
        &&& forall|i: int, j: int|
            0 <= i < j < self.users@.len() ==> self.users@[i].username@ != self.users@[j].username@
        &&& forall|i: int, j: int|
            0 <= i < j < self.users@.len() ==> self.users@[i].user_id != self.users@[j].user_id
    }

    /// Subscriber ids are unique.
    pub open spec fn subscribers_wf(self) -> bool {
        forall|i: int, j: int|
            0 <= i < j < self.subscribers@.len() ==> self.subscribers@[i].id
                != self.subscribers@[j].id
    }

    /// Tokens are unique, no subscriber has two tokens, and every token
    /// points at an existing subscriber.
    pub open spec fn tokens_wf(self) -> bool {
        &&& forall|i: int, j: int|
            0 <= i < j < self.tokens@.len() ==> self.tokens@[i].subscription_token@
                != self.tokens@[j].subscription_token@
        &&& forall|i: int, j: int|
            0 <= i < j < self.tokens@.len() ==> self.tokens@[i].subscriber_id
                != self.tokens@[j].subscriber_id
        &&& forall|i: int|
            0 <= i < self.tokens@.len() ==> self.has_subscriber_id(
                self.tokens@[i].subscriber_id,
            )
    }

    /// Some token row points at the given subscriber id.
    pub open spec fn has_token_for(self, id: u128) -> bool {
        exists|j: int| 0 <= j < self.tokens@.len() && self.tokens@[j].subscriber_id == id
    }

    /// Every subscriber row has an associated token row: a subscriber is
    /// never durable without the token that was committed with it.
    pub open spec fn every_subscriber_has_token(self) -> bool {
        forall|i: int|
            0 <= i < self.subscribers@.len() ==> self.has_token_for(
                #[trigger] self.subscribers@[i].id,
            )
    }

    /// Well-formedness of the whole store. Together with `tokens_wf` this
    /// gives every subscriber exactly one token.
    pub open spec fn wf(self) -> bool {
        &&& self.users_wf()
        &&& self.subscribers_wf()
        &&& self.tokens_wf()
        &&& self.every_subscriber_has_token()
    }

    /// Token linkage and uniqueness depend only on the table contents.
    proof fn lemma_links_from_views(a: Store, b: Store)
        requires
            a.subscribers@.len() == b.subscribers@.len(),
            forall|i: int|
                0 <= i < a.subscribers@.len() ==> #[trigger] b.subscribers@[i].id
                    == a.subscribers@[i].id,
            a.tokens@ == b.tokens@,
            a.subscribers_wf(),
            a.tokens_wf(),
            a.every_subscriber_has_token(),
        ensures
            b.subscribers_wf(),
            b.tokens_wf(),
            b.every_subscriber_has_token(),
    {
        assert forall|i: int|
            0 <= i < b.tokens@.len() implies b.has_subscriber_id(
            #[trigger] b.tokens@[i].subscriber_id,
        ) by {
            assert(a.has_subscriber_id(a.tokens@[i].subscriber_id));
            let k = choose|k: int|
                0 <= k < a.subscribers@.len() && a.subscribers@[k].id == a.tokens@[
                    i
                ].subscriber_id;
            assert(0 <= k < b.subscribers@.len() && b.subscribers@[k].id == b.tokens@[
                i
            ].subscriber_id);
        }
        assert forall|i: int|
            0 <= i < b.subscribers@.len() implies b.has_token_for(
            #[trigger] b.subscribers@[i].id,
        ) by {
            assert(a.subscribers@[i].id == b.subscribers@[i].id);
            assert(a.has_token_for(a.subscribers@[i].id));
            let j = choose|j: int|
                0 <= j < a.tokens@.len() && a.tokens@[j].subscriber_id == a.subscribers@[i].id;
            assert(0 <= j < b.tokens@.len() && b.tokens@[j].subscriber_id == b.subscribers@[
                i
            ].id);
        }
    }

    /// An empty store.
    pub fn new() -> (r: Store)
        ensures
            r.users@.len() == 0,
            r.subscribers@.len() == 0,
            r.tokens@.len() == 0,
            r.wf(),
    {
        Store { users: Vec::new(), subscribers: Vec::new(), tokens: Vec::new() }
    }

    /// Adds a user row. Users are created out of band; the workflows only
    /// read and update them.
    pub fn add_user(&mut self, user_id: u128, username: String, password_hash: String)
        requires
            !old(self).has_username(username@),
            !old(self).has_user_id(user_id),
        ensures
            final(self).users@ == old(self).users@.push(
                UserRecord { user_id, username, password_hash },
            ),
            final(self).subscribers@ == old(self).subscribers@,
            final(self).tokens@ == old(self).tokens@,
            old(self).wf() ==> final(self).wf(),
    {
        let ghost olds = *self;
        self.users.push(UserRecord { user_id, username, password_hash });
        proof {
            if olds.wf() {
                let n = olds.users@.len() as int;
                assert forall|i: int, j: int|
                    0 <= i < j < self.users@.len() implies self.users@[i].username@
                    != self.users@[j].username@ by {
                    if j == n {
                        if self.users@[i].username@ == username@ {
                            assert(olds.users@[i].username@ == username@);
                            assert(olds.has_username(username@));
                        }
                    } else {
                        assert(olds.users@[i].username@ != olds.users@[j].username@);
                    }
                }
                assert forall|i: int, j: int|
                    0 <= i < j < self.users@.len() implies self.users@[i].user_id
                    != self.users@[j].user_id by {
                    if j == n {
                        if self.users@[i].user_id == user_id {
                            assert(olds.users@[i].user_id == user_id);
                            assert(olds.has_user_id(user_id));
                        }
                    } else {
                        assert(olds.users@[i].user_id != olds.users@[j].user_id);
                    }
                }
                assert(forall|i: int|
                    0 <= i < self.subscribers@.len() ==> #[trigger] self.subscribers@[i].id
                        == olds.subscribers@[i].id);
                Self::lemma_links_from_views(olds, *self);
            }
        }
    }

    /// The stored (user id, password hash) pair for a username, if any.
    pub fn lookup_user(&self, username: &str) -> (r: Option<(u128, String)>)
        requires
            self.users_wf(),
        ensures
            match r {
                Some((id, hash)) => self.has_username(username@) && id == self.user_for(
                    username@,
                ).user_id && hash@ == self.user_for(username@).password_hash@,
                None => !self.has_username(username@),
            },
    {
        let n = self.users.len();
        for i in 0..n
            invariant
                n == self.users@.len(),
                self.users_wf(),
                forall|j: int| 0 <= j < i ==> self.users@[j].username@ != username@,
        {
            if str_eq(self.users[i].username.as_str(), username) {
                proof {
                    let k = self.user_index(username@);
                    assert(0 <= k < self.users@.len() && self.users@[k].username@ == username@);
                    assert(k == i as int);
                }
                return Some((self.users[i].user_id, self.users[i].password_hash.clone()));
            }
        }
        None
    }

    /// The username stored for a user id, if any.
    pub fn get_username_of(&self, user_id: u128) -> (r: Option<String>)
        requires
            self.users_wf(),
        ensures
            match r {
                Some(name) => self.has_user_id(user_id) && name@ == self.users@[self.user_id_index(
                    user_id,
                )].username@,
                None => !self.has_user_id(user_id),
            },
    {
        let n = self.users.len();
        for i in 0..n
            invariant
                n == self.users@.len(),
                self.users_wf(),
                forall|j: int| 0 <= j < i ==> self.users@[j].user_id != user_id,
        {
            if self.users[i].user_id == user_id {
                proof {
                    let k = self.user_id_index(user_id);
                    assert(0 <= k < self.users@.len() && self.users@[k].user_id == user_id);
                    assert(k == i as int);
                }
                return Some(self.users[i].username.clone());
            }
        }
        None
    }

    /// Replaces the password hash of an existing user, leaving every other
    /// row untouched.
    pub fn update_password_hash(&mut self, user_id: u128, new_hash: String)
        requires
            old(self).users_wf(),
            old(self).has_user_id(user_id),
        ensures
            final(self).users@.len() == old(self).users@.len(),
            forall|i: int|
                0 <= i < final(self).users@.len() ==> {
                    &&& #[trigger] final(self).users@[i].user_id == old(self).users@[i].user_id
                    &&& final(self).users@[i].username@ == old(self).users@[i].username@
                    &&& final(self).users@[i].password_hash@ == (if old(self).users@[i].user_id
                        == user_id {
                        new_hash@
                    } else {
                        old(self).users@[i].password_hash@
                    })
                },
            final(self).subscribers@ == old(self).subscribers@,
            final(self).tokens@ == old(self).tokens@,
            old(self).wf() ==> final(self).wf(),
    {
        let ghost olds = *self;
        let n = self.users.len();
        let mut i: usize = 0;
        while i < n && self.users[i].user_id != user_id
            invariant
                i <= n,
                n == self.users@.len(),
                *self == olds,
                olds.users_wf(),
                olds.has_user_id(user_id),
                forall|j: int| 0 <= j < i ==> self.users@[j].user_id != user_id,
            decreases n - i,
        {
            i += 1;
        }
        proof {
            if i == n {
                let w = choose|w: int|
                    0 <= w < olds.users@.len() && olds.users@[w].user_id == user_id;
                assert(self.users@[w].user_id != user_id);
                assert(false);
            }
            assert(olds.users@[i as int].user_id == user_id);
        }
        let ghost pre = self.users@;
        let mut rec = self.users.remove(i);
        rec.password_hash = new_hash.clone();
        self.users.insert(i, rec);
        proof {
            assert(self.users@ =~= pre.update(
                i as int,
                UserRecord { password_hash: rec.password_hash, ..pre[i as int] },
            ));
            assert(rec.password_hash@ == new_hash@);
            assert forall|j: int|
                0 <= j < self.users@.len() implies {
                &&& #[trigger] self.users@[j].user_id == olds.users@[j].user_id
                &&& self.users@[j].username@ == olds.users@[j].username@
                &&& self.users@[j].password_hash@ == (if olds.users@[j].user_id == user_id {
                    new_hash@
                } else {
                    olds.users@[j].password_hash@
                })
            } by {
                if j != i {
                    if j < i {
                        assert(olds.users@[j].user_id != olds.users@[i as int].user_id);
                    } else {
                        assert(olds.users@[i as int].user_id != olds.users@[j].user_id);
                    }
                }
            }
            if olds.wf() {
                assert forall|a: int, b: int|
                    0 <= a < b < self.users@.len() implies self.users@[a].username@
                    != self.users@[b].username@ by {
                    assert(olds.users@[a].username@ != olds.users@[b].username@);
                }
                assert forall|a: int, b: int|
                    0 <= a < b < self.users@.len() implies self.users@[a].user_id
                    != self.users@[b].user_id by {
                    assert(olds.users@[a].user_id != olds.users@[b].user_id);
                }
                assert(forall|k: int|
                    0 <= k < self.subscribers@.len() ==> #[trigger] self.subscribers@[k].id
                        == olds.subscribers@[k].id);
                Self::lemma_links_from_views(olds, *self);
            }
        }
    }

    /// Whether some subscriber row carries this id.
    pub fn contains_subscriber_id(&self, id: u128) -> (r: bool)
        ensures
            r == self.has_subscriber_id(id),
    {
        let n = self.subscribers.len();
        for i in 0..n
            invariant
                n == self.subscribers@.len(),
                forall|j: int| 0 <= j < i ==> self.subscribers@[j].id != id,
        {
            if self.subscribers[i].id == id {
                return true;
            }
        }
        false
    }

    /// Whether some token row carries this token string.
    pub fn contains_token(&self, token: &str) -> (r: bool)
        ensures
            r == self.has_token(token@),
    {
        let n = self.tokens.len();
        for i in 0..n
            invariant
                n == self.tokens@.len(),
                forall|j: int| 0 <= j < i ==> self.tokens@[j].subscription_token@ != token@,
        {
            if str_eq(self.tokens[i].subscription_token.as_str(), token) {
                return true;
            }
        }
        false
    }

    /// The subscriber id a token points at, if the token is stored.
    pub fn lookup_token(&self, token: &str) -> (r: Option<u128>)
        requires
            self.tokens_wf(),
        ensures
            match r {
                Some(id) => self.has_token(token@) && id == self.token_for(token@).subscriber_id,
                None => !self.has_token(token@),
            },
            r is Some ==> self.has_subscriber_id(r->0),
    {
        let n = self.tokens.len();
        for i in 0..n
            invariant
                n == self.tokens@.len(),
                self.tokens_wf(),
                forall|j: int| 0 <= j < i ==> self.tokens@[j].subscription_token@ != token@,
        {
            if str_eq(self.tokens[i].subscription_token.as_str(), token) {
                proof {
                    let k = self.token_index(token@);
                    assert(0 <= k < self.tokens@.len() && self.tokens@[k].subscription_token@
                        == token@);
                    assert(k == i as int);
                }
                return Some(self.tokens[i].subscriber_id);
            }
        }
        None
    }

    /// Sets the status of the subscriber with the given id to confirmed,
    /// leaving every other column and row untouched. Updating a subscriber
    /// that is already confirmed, or an id that is absent, changes nothing.
    pub fn set_confirmed(&mut self, id: u128)
        ensures
            final(self).subscribers@.len() == old(self).subscribers@.len(),
            forall|i: int|
                0 <= i < final(self).subscribers@.len() ==> {
                    &&& same_subscriber_but_status(
                        old(self).subscribers@[i],
                        #[trigger] final(self).subscribers@[i],
                    )
                    &&& final(self).subscribers@[i].status == (if old(self).subscribers@[i].id == id {
                        SubscriptionStatus::Confirmed
                    } else {
                        old(self).subscribers@[i].status
                    })
                },
            final(self).users@ == old(self).users@,
            final(self).tokens@ == old(self).tokens@,
            old(self).wf() ==> final(self).wf(),
    {
        let ghost olds = *self;
        let n = self.subscribers.len();
        for i in 0..n
            invariant
                n == self.subscribers@.len() == olds.subscribers@.len(),
                *self == (Store { subscribers: self.subscribers, ..olds }),
                forall|j: int|
                    0 <= j < n ==> same_subscriber_but_status(
                        olds.subscribers@[j],
                        #[trigger] self.subscribers@[j],
                    ),
                forall|j: int|
                    0 <= j < i ==> #[trigger] self.subscribers@[j].status == (
                    if olds.subscribers@[j].id == id {
                        SubscriptionStatus::Confirmed
                    } else {
                        olds.subscribers@[j].status
                    }),
                forall|j: int|
                    i <= j < n ==> #[trigger] self.subscribers@[j].status == olds.subscribers@[
                        j
                    ].status,
        {
            if self.subscribers[i].id == id {
                let mut rec = self.subscribers.remove(i);
                rec.status = SubscriptionStatus::Confirmed;
                self.subscribers.insert(i, rec);
            }
        }
        proof {
            if olds.wf() {
                assert forall|i: int|
                    0 <= i < self.subscribers@.len() implies #[trigger] self.subscribers@[i].id
                    == olds.subscribers@[i].id by {
                    assert(same_subscriber_but_status(olds.subscribers@[i], self.subscribers@[i]));
                }
                Self::lemma_links_from_views(olds, *self);
            }
        }
    }
}

} // verus!
