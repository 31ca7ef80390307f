//! The password-change flow for a logged-in administrator: the form page
//! gate and the change itself.
//!
//! A mismatch between the two entered passwords is caught before anything
//! is derived or written. On success the stored hash is replaced by a fresh
//! PHC hash that verifies against the new password; no other row or column
//! moves.

use vstd::prelude::*;
#[allow(unused_imports)]
use vstd::string::StringExecFns;
use crate::password::{hash_new_password, phc_match, phc_parses};
use crate::session::Session;
use crate::store::Store;
use crate::strutil::str_eq;

verus! {

/// The form body of a password-change request.
pub struct PasswordForm {
    pub password: String,
    pub confirm_password: String,
}

/// An infrastructure fault while changing the password.
#[derive(Clone, Copy, PartialEq, Eq, Structural, Debug)]
pub enum ChangePasswordError {
    UnexpectedError,
}

impl ChangePasswordError {
    /// The HTTP status this failure maps to.
    pub fn status_code(&self) -> (r: u16)
        ensures
            r == 500u16,
    {
        500
    }
}

/// The response of the password-change pages: a page or a redirect, with a
/// flash message where one is set.
pub struct ChangePasswordResponse {
    pub status: u16,
    pub location: Option<String>,
    pub flash: Option<String>,
}

/// The form page gate: only a logged-in session sees the form; anyone else
/// is sent to the login page.
pub fn form_password(session: &Session) -> (r: ChangePasswordResponse)
    ensures
        session.user_id is Some ==> r.status == 200 && r.location is None,
        session.user_id is None ==> r.status == 303 && (r.location matches Some(l) && l@
            == "/login"@),
{
    match session.get_user_id() {
        Some(_) => ChangePasswordResponse { status: 200, location: None, flash: None },
        None => ChangePasswordResponse {
            status: 303,
            location: Some(String::from_str("/login")),
            flash: None,
        },
    }
}

/// Changes the password of the authenticated user.
///
/// If the two entered passwords differ, the caller is sent back to the form
/// with the flash message and the store is untouched. Otherwise the user's
/// hash is replaced by a fresh one that verifies against the new password;
/// every other row and column is untouched. Only a failure of the hash
/// derivation itself is an error.
pub fn password_change(store: &mut Store, user_id: u128, form: PasswordForm) -> (r: Result<
    ChangePasswordResponse,
    ChangePasswordError,
>)
    requires
        old(store).users_wf(),
        old(store).has_user_id(user_id),
    ensures
        old(store).wf() ==> final(store).wf(),
        form.password@ != form.confirm_password@ ==> (r matches Ok(resp) && resp.status == 303 && (
        resp.location matches Some(l) && l@ == "/admin/change/password"@) && (resp.flash
            matches Some(m) && m@
            == "You entered two different new passwords - the field values must match."@)
            && *final(store) == *old(store)),
        form.password@ == form.confirm_password@ ==> match r {
            Ok(resp) => {
                &&& resp.status == 303
                &&& (resp.location matches Some(l) && l@ == "/admin/dashboard"@)
                &&& resp.flash is None
                &&& final(store).users@.len() == old(store).users@.len()
                &&& forall|i: int|
                    0 <= i < final(store).users@.len() ==> {
                        &&& #[trigger] final(store).users@[i].user_id == old(store).users@[
                            i
                        ].user_id
                        &&& final(store).users@[i].username@ == old(store).users@[i].username@
                        &&& (old(store).users@[i].user_id == user_id ==> phc_parses(
                            final(store).users@[i].password_hash@,
                        ) && phc_match(form.password@, final(store).users@[i].password_hash@))
                        &&& (old(store).users@[i].user_id != user_id ==> final(store).users@[
                            i
                        ].password_hash@ == old(store).users@[i].password_hash@)
                    }
                &&& final(store).subscribers@ == old(store).subscribers@
                &&& final(store).tokens@ == old(store).tokens@
            },
            Err(e) => e is UnexpectedError && *final(store) == *old(store),
        },
{
    if !str_eq(form.confirm_password.as_str(), form.password.as_str()) {
        return Ok(
            ChangePasswordResponse {
                status: 303,
                location: Some(String::from_str("/admin/change/password")),
                flash: Some(
                    String::from_str(
                        "You entered two different new passwords - the field values must match.",
                    ),
                ),
            },
        );
    }
    let new_hash = match hash_new_password(form.password.as_str()) {
        Some(h) => h,
        None => { return Err(ChangePasswordError::UnexpectedError); },
    };
    store.update_password_hash(user_id, new_hash);
    Ok(
        ChangePasswordResponse {
            status: 303,
            location: Some(String::from_str("/admin/dashboard")),
            flash: None,
        },
    )
}

} // verus!
