//! The admin dashboard gate: a logged-in session is greeted by username, an
//! anonymous one is sent to the login page.

use vstd::prelude::*;
#[allow(unused_imports)]
use vstd::string::StringExecFns;
use crate::session::Session;
use crate::store::Store;

verus! {

/// The dashboard response: the page with the username, a redirect, or a
/// server error when the session names a user the store does not know.
pub struct DashboardResponse {
    pub status: u16,
    pub location: Option<String>,
    pub username: Option<String>,
}

/// The username stored for a user id, if any.
pub fn get_username(user_id: u128, store: &Store) -> (r: Option<String>)
    requires
        store.users_wf(),
    ensures
        match r {
            Some(name) => store.has_user_id(user_id) && name@ == store.users@[store.user_id_index(
                user_id,
            )].username@,
            None => !store.has_user_id(user_id),
        },
{
    store.get_username_of(user_id)
}

/// The dashboard handler over the session and store models.
pub fn admin_dashboard(session: &Session, store: &Store) -> (r: DashboardResponse)
    requires
        store.users_wf(),
    ensures
        session.user_id is None ==> r.status == 303 && (r.location matches Some(l) && l@
            == "/login"@) && r.username is None,
        session.user_id matches Some(id) ==> (store.has_user_id(id) ==> r.status == 200
            && r.location is None && (r.username matches Some(u) && u@ == store.users@[
        store.user_id_index(id)].username@)),
        session.user_id matches Some(id) ==> (!store.has_user_id(id) ==> r.status == 500
            && r.username is None),
{
    match session.get_user_id() {
        None => DashboardResponse {
            status: 303,
            location: Some(String::from_str("/login")),
            username: None,
        },
        Some(user_id) => match get_username(user_id, store) {
            Some(username) => DashboardResponse {
                status: 200,
                location: None,
                username: Some(username),
            },
            None => DashboardResponse { status: 500, location: None, username: None },
        },
    }
}

} // verus!
