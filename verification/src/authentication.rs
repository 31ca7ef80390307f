//! Credential validation with the anti-enumeration defence.
//!
//! Whether or not the username is known, exactly one password verification
//! is performed, over the stored hash or over a fixed dummy hash: the
//! hashing cost is paid identically on both paths, and both failures are the
//! same generic `InvalidCredentials`.

use vstd::prelude::*;
use crate::password::{check_password, dummy_password_hash, phc_match, phc_parses, PasswordCheck};
use crate::store::Store;

verus! {

/// Why credential validation failed. The caller never learns whether the
/// username or the password was wrong.
#[derive(Clone, Copy, PartialEq, Eq, Structural, Debug)]
pub enum AuthError {
    InvalidCredentials,
    UnexpectedError,
}

impl AuthError {
    /// The HTTP status this failure maps to.
    pub fn status_code(&self) -> (r: u16)
        ensures
            r == (match self {
                AuthError::UnexpectedError => 500u16,
                AuthError::InvalidCredentials => 401u16,
            }),
    {
        match self {
            AuthError::UnexpectedError => 500,
            AuthError::InvalidCredentials => 401,
        }
    }
}

/// A username and the plaintext password presented with it. It lives only
/// for the duration of one validation call and is consumed by it.
pub struct Credential {
    pub username: String,
    pub password: String,
}

/// The authentication decision: a known username whose stored hash parses
/// and matches yields that user's id; a known username whose stored hash is
/// corrupt yields `UnexpectedError`; everything else — unknown username, or
/// a wrong password — yields the one generic `InvalidCredentials`.
pub open spec fn auth_outcome(store: Store, username: Seq<char>, password: Seq<char>) -> Result<
    u128,
    AuthError,
> {
    if store.has_username(username) {
        if !phc_parses(store.user_for(username).password_hash@) {
            Err(AuthError::UnexpectedError)
        } else if phc_match(password, store.user_for(username).password_hash@) {
            Ok(store.user_for(username).user_id)
        } else {
            Err(AuthError::InvalidCredentials)
        }
    } else {
        Err(AuthError::InvalidCredentials)
    }
}

/// Checks a password candidate against a stored PHC hash, as the validation
/// path does: a hash that does not parse is an infrastructure fault, a
/// mismatch is an authentication failure.
pub fn verify_password(expected_password_hash: String, password_candidate: String) -> (r: Result<
    (),
    AuthError,
>)
    ensures
        r is Ok <==> (phc_parses(expected_password_hash@) && phc_match(
            password_candidate@,
            expected_password_hash@,
        )),
        r == Err::<(), AuthError>(AuthError::UnexpectedError) <==> !phc_parses(
            expected_password_hash@,
        ),
        r == Err::<(), AuthError>(AuthError::InvalidCredentials) <==> (phc_parses(
            expected_password_hash@,
        ) && !phc_match(password_candidate@, expected_password_hash@)),
{
    match check_password(password_candidate.as_str(), expected_password_hash.as_str()) {
        PasswordCheck::Match => Ok(()),
        PasswordCheck::NoMatch => Err(AuthError::InvalidCredentials),
        PasswordCheck::MalformedHash => Err(AuthError::UnexpectedError),
    }
}

/// The stored (user id, password hash) pair for a username, if the username
/// is known.
pub fn get_stored_credential(username: &str, store: &Store) -> (r: Option<(u128, String)>)
    requires
        store.users_wf(),
    ensures
        match r {
            Some((id, hash)) => store.has_username(username@) && id == store.user_for(
                username@,
            ).user_id && hash@ == store.user_for(username@).password_hash@,
            None => !store.has_username(username@),
        },
{
    store.lookup_user(username)
}

/// Validates a credential against the stored users and returns the
/// authenticated user id or the uniform failure, exactly as `auth_outcome`
/// decides. One password verification runs on every path: over the stored
/// hash when the username is known, over the fixed dummy hash when it is
/// not, so the hashing cost does not reveal whether the username exists.
pub fn validate_credential(store: &Store, credential: Credential) -> (r: Result<u128, AuthError>)
    requires
        store.users_wf(),
    ensures
        r == auth_outcome(*store, credential.username@, credential.password@),
{
    match get_stored_credential(credential.username.as_str(), store) {
        Some((user_id, stored_hash)) => {
            match verify_password(stored_hash, credential.password) {
                Ok(()) => Ok(user_id),
                Err(e) => Err(e),
            }
        },
        None => {
            let dummy = String::from_str(dummy_password_hash());
            let _ = verify_password(dummy, credential.password);
            Err(AuthError::InvalidCredentials)
        },
    }
}

/// The anti-enumeration law: for any store, an unknown username (with any
/// password) and a known username presented with a non-matching password
/// produce the very same generic failure — nothing in the result
/// distinguishes the two.
pub proof fn lemma_uniform_auth_failure(
    store: Store,
    unknown_user: Seq<char>,
    known_user: Seq<char>,
    p1: Seq<char>,
    p2: Seq<char>,
)
    requires
        !store.has_username(unknown_user),
        store.has_username(known_user),
        phc_parses(store.user_for(known_user).password_hash@),
        !phc_match(p2, store.user_for(known_user).password_hash@),
    ensures
        auth_outcome(store, unknown_user, p1) == auth_outcome(store, known_user, p2),
        auth_outcome(store, unknown_user, p1) == Err::<u128, AuthError>(
            AuthError::InvalidCredentials,
        ),
{
}

} // verus!
