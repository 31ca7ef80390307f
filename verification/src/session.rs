//! The session abstraction: an opaque session identity bound to an
//! authenticated user id.
//!
//! The identity is modelled by a rotation counter: rotating the session
//! always yields a different identity, which is what defeats session
//! fixation. The storage engine behind the cookie is outside this library.

use vstd::prelude::*;

verus! {

/// One client's session: its current identity and the user logged in on it.
#[derive(Clone, Copy, PartialEq, Eq, Structural, Debug)]
pub struct Session {
    pub epoch: u64,
    pub user_id: Option<u128>,
}

impl Session {
    /// A fresh anonymous session.
    pub fn new() -> (r: Session)
        ensures
            r.user_id is None,
    {
        Session { epoch: 0, user_id: None }
    }

    /// Rotates the session identity, keeping the session state. Run before
    /// a login so a pre-login identity can never name an authenticated
    /// session.
    pub fn renew(&mut self)
        ensures
            final(self).epoch != old(self).epoch,
            final(self).user_id == old(self).user_id,
    {
        if self.epoch == u64::MAX {
            self.epoch = 0;
        } else {
            self.epoch = self.epoch + 1;
        }
    }

    /// Binds the authenticated user to the session.
    pub fn insert_user(&mut self, user_id: u128)
        ensures
            final(self).epoch == old(self).epoch,
            final(self).user_id == Some(user_id),
    {
        self.user_id = Some(user_id);
    }

    /// The user this session authenticates, if any.
    pub fn get_user_id(&self) -> (r: Option<u128>)
        ensures
            r == self.user_id,
    {
        self.user_id
    }
}

/// Destroys the session: the user is logged out and the old identity is
/// retired.
pub fn clear_session(session: &mut Session)
    ensures
        final(session).user_id is None,
        final(session).epoch != old(session).epoch,
{
    session.renew();
    session.user_id = None;
}

} // verus!
