//! The password hashing boundary: PHC-formatted hashes, verification and
//! derivation, trusted at the argon2 crate's documented behaviour and
//! nothing more.

use vstd::prelude::*;
use argon2::PasswordVerifier;
use argon2::PasswordHasher;

verus! {

/// Outcome of checking a password candidate against a stored PHC string.
/// A malformed stored hash is distinct from a mismatch: it signals corrupted
/// storage, not a wrong password.
#[derive(Clone, Copy, PartialEq, Eq, Structural, Debug)]
pub enum PasswordCheck {
    Match,
    NoMatch,
    MalformedHash,
}

/// Whether a string parses as a PHC-formatted password hash
/// (a fixed function of the characters alone).
pub uninterp spec fn phc_parses(hash: Seq<char>) -> bool;

/// Whether argon2 verification of a password candidate against a PHC string
/// succeeds (a fixed function of the two strings alone).
pub uninterp spec fn phc_match(password: Seq<char>, hash: Seq<char>) -> bool;

/// Relies on argon2's `PasswordHash::new` (parsing the PHC string) and
/// `Argon2::verify_password` (recomputing the hash and comparing): both
/// verdicts depend on the two strings alone.
#[verifier::external_body]
pub(crate) fn check_password(candidate: &str, expected_hash: &str) -> (r: PasswordCheck)
    ensures
        r is MalformedHash <==> !phc_parses(expected_hash@),
        phc_parses(expected_hash@) ==> (r is Match <==> phc_match(candidate@, expected_hash@)),
{
    match argon2::PasswordHash::new(expected_hash) {
        Err(_) => PasswordCheck::MalformedHash,
        Ok(parsed) => match argon2::Argon2::default().verify_password(
            candidate.as_bytes(),
            &parsed,
        ) {
            Ok(()) => PasswordCheck::Match,
            Err(_) => PasswordCheck::NoMatch,
        },
    }
}

/// Relies on argon2's `Argon2::hash_password` with a fresh random salt: the
/// salt is random, so nothing is promised about which string comes back,
/// only that a produced PHC string re-parses and verifies against the same
/// password (the documented round trip).
#[verifier::external_body]
pub(crate) fn hash_new_password(password: &str) -> (r: Option<String>)
    ensures
        r matches Some(h) ==> phc_parses(h@) && phc_match(password@, h@),
{
    let salt = argon2::password_hash::SaltString::generate(
        &mut argon2::password_hash::rand_core::OsRng,
    );
    match argon2::Argon2::default().hash_password(password.as_bytes(), &salt) {
        Ok(h) => Some(h.to_string()),
        Err(_) => None,
    }
}

/// A fixed, well-formed PHC string used purely to equalise the cost of
/// validation when a username is unknown. It is never stored and never
/// matched against a real user.
pub fn dummy_password_hash() -> &'static str {
    "$argon2id$v=19$m=15000,t=2,p=1$gZiV/M1gPc22ElAH/Jh1Hw$CWOrkoo7oJBQ/iyh7uJ0LO2aLEfrHwTWllSAxT0zRno"
}

} // verus!
