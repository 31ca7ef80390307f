//! The login handler's decision: validate the credential, and on success
//! rotate the session before binding the user to it.
//!
//! Both failure kinds redirect back to the login page with a flash message
//! and leave the session untouched; nothing about the response distinguishes
//! an unknown username from a wrong password.

use vstd::prelude::*;
#[allow(unused_imports)]
use vstd::string::StringExecFns;
use crate::authentication::{auth_outcome, validate_credential, AuthError, Credential};
use crate::session::Session;
use crate::store::Store;

verus! {

/// The form body of a login request.
pub struct FormData {
    pub username: String,
    pub password: String,
}

/// Why a login failed.
#[derive(Clone, Copy, PartialEq, Eq, Structural, Debug)]
pub enum LoginError {
    AuthError,
    UnexpectedError,
}

/// The user-facing text of a login failure. The authentication message is
/// the one generic line; it never names the failing part of the credential.
pub open spec fn login_error_message(e: LoginError) -> Seq<char> {
    match e {
        LoginError::AuthError => "Authentication failed"@,
        LoginError::UnexpectedError => "Unexpected error"@,
    }
}

impl LoginError {
    /// Every login failure answers with a redirect.
    pub fn status_code(&self) -> (r: u16)
        ensures
            r == 303u16,
    {
        303
    }

    /// The flash message shown on the login page.
    pub fn message(&self) -> (r: String)
        ensures
            r@ == login_error_message(*self),
    {
        match self {
            LoginError::AuthError => String::from_str("Authentication failed"),
            LoginError::UnexpectedError => String::from_str("Unexpected error"),
        }
    }
}

impl From<AuthError> for LoginError {
    /// An invalid credential is an authentication failure; everything else
    /// is an infrastructure fault.
    fn from(value: AuthError) -> (r: LoginError) {
        match value {
            AuthError::InvalidCredentials => LoginError::AuthError,
            AuthError::UnexpectedError => LoginError::UnexpectedError,
        }
    }
}

impl vstd::std_specs::convert::FromSpecImpl<AuthError> for LoginError {
    open spec fn obeys_from_spec() -> bool {
        true
    }

    open spec fn from_spec(value: AuthError) -> LoginError {
        match value {
            AuthError::InvalidCredentials => LoginError::AuthError,
            AuthError::UnexpectedError => LoginError::UnexpectedError,
        }
    }
}

/// The response of the login handler: a redirect, with a flash message on
/// failure.
pub struct LoginResponse {
    pub status: u16,
    pub location: String,
    pub flash: Option<String>,
}

/// The redirect back to the login page that every failure produces.
fn login_redirect(e: LoginError) -> (r: LoginResponse)
    ensures
        r.status == 303,
        r.location@ == "/login"@,
        r.flash matches Some(m) && m@ == login_error_message(e),
{
    LoginResponse {
        status: 303,
        location: String::from_str("/login"),
        flash: Some(e.message()),
    }
}

/// The login handler over the store and session models.
///
/// A valid credential rotates the session identity, binds the user to the
/// fresh identity and redirects to the dashboard. Any failure redirects to
/// the login page with the flash message of its kind and leaves the session
/// exactly as it was — no session is issued.
pub fn login(store: &Store, session: &mut Session, form: FormData) -> (r: LoginResponse)
    requires
        store.users_wf(),
    ensures
        r.status == 303,
        match auth_outcome(*store, form.username@, form.password@) {
            Ok(user_id) => {
                &&& r.location@ == "/admin/dashboard"@
                &&& r.flash is None
                &&& final(session).user_id == Some(user_id)
                &&& final(session).epoch != old(session).epoch
            },
            Err(e) => {
                &&& r.location@ == "/login"@
                &&& (r.flash matches Some(m) && m@ == login_error_message(
                    match e {
                        AuthError::InvalidCredentials => LoginError::AuthError,
                        AuthError::UnexpectedError => LoginError::UnexpectedError,
                    },
                ))
                &&& *final(session) == *old(session)
            },
        },
{
    let credential = Credential { username: form.username, password: form.password };
    match validate_credential(store, credential) {
        Ok(user_id) => {
            session.renew();
            session.insert_user(user_id);
            LoginResponse {
                status: 303,
                location: String::from_str("/admin/dashboard"),
                flash: None,
            }
        },
        Err(e) => {
            let login_error = LoginError::from(e);
            login_redirect(login_error)
        },
    }
}

} // verus!
