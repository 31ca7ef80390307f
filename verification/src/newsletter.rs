//! Newsletter publishing: HTTP Basic authentication, credential validation,
//! and the fan-out to every confirmed subscriber with a valid address.
//!
//! The send itself is the external sender's job; this module decides who is
//! authenticated, who receives the issue, and with exactly which content.

use vstd::prelude::*;
#[allow(unused_imports)]
use vstd::string::StrSliceExecFns;
#[allow(unused_imports)]
use vstd::string::StringExecFns;
use base64::Engine;
use crate::authentication::{auth_outcome, validate_credential as validate_auth_credential,
    AuthError, Credential as AuthCredential};
use crate::domain::{is_valid_email, SubscriberEmail};
use crate::store::{Store, SubscriberRecord, SubscriptionStatus};
use crate::strutil::{find_char, starts_with, substring};

verus! {

/// A username and password presented through HTTP Basic authentication.
pub struct Credential {
    pub username: String,
    pub password: String,
}

/// The JSON body of a publish request.
pub struct Mail {
    pub title: String,
    pub content: MailContent,
}

/// The two renderings of the newsletter issue.
pub struct MailContent {
    pub html: String,
    pub text: String,
}

/// Why publishing failed.
#[derive(Clone, Copy, PartialEq, Eq, Structural, Debug)]
pub enum NewsletterError {
    UnexpectedError,
    AuthError,
}

/// A response head: the status, and the challenge header when
/// authentication was refused.
pub struct ErrorResponse {
    pub status: u16,
    pub www_authenticate: Option<String>,
}

impl NewsletterError {
    /// The HTTP status this failure maps to.
    pub fn status_code(&self) -> (r: u16)
        ensures
            r == (match self {
                NewsletterError::UnexpectedError => 500u16,
                NewsletterError::AuthError => 401u16,
            }),
    {
        match self {
            NewsletterError::UnexpectedError => 500,
            NewsletterError::AuthError => 401,
        }
    }

    /// The full response of a failure: a refused authentication answers 401
    /// and carries exactly the challenge `Basic realm="publish"`.
    pub fn error_response(&self) -> (r: ErrorResponse)
        ensures
            match self {
                NewsletterError::UnexpectedError => r.status == 500 && r.www_authenticate is None,
                NewsletterError::AuthError => r.status == 401 && (r.www_authenticate matches Some(v)
                    && v@ == "Basic realm=\"publish\""@),
            },
    {
        match self {
            NewsletterError::UnexpectedError => ErrorResponse {
                status: 500,
                www_authenticate: None,
            },
            NewsletterError::AuthError => ErrorResponse {
                status: 401,
                www_authenticate: Some(String::from_str("Basic realm=\"publish\"")),
            },
        }
    }
}

/// What base64 decoding of a string yields, if it decodes
/// (a fixed function of the characters alone).
pub uninterp spec fn base64_decoded(s: Seq<char>) -> Option<Seq<u8>>;

/// Relies on base64's standard-alphabet `Engine::decode`: the outcome
/// depends on the input characters alone.
#[verifier::external_body]
fn decode_base64(s: &str) -> (r: Option<Vec<u8>>)
    ensures
        match r {
            Some(bytes) => base64_decoded(s@) == Some(bytes@),
            None => base64_decoded(s@) is None,
        },
{
    match base64::engine::general_purpose::STANDARD.decode(s) {
        Ok(bytes) => Some(bytes),
        Err(_) => None,
    }
}

/// What UTF-8 decoding of a byte sequence yields, if the bytes are valid
/// UTF-8 (a fixed function of the bytes alone).
pub uninterp spec fn utf8_decoded(bytes: Seq<u8>) -> Option<Seq<char>>;

/// Relies on std's `String::from_utf8`: the outcome depends on the bytes
/// alone.
#[verifier::external_body]
fn bytes_to_string(bytes: Vec<u8>) -> (r: Option<String>)
    ensures
        match r {
            Some(s) => utf8_decoded(bytes@) == Some(s@),
            None => utf8_decoded(bytes@) is None,
        },
{
    match String::from_utf8(bytes) {
        Ok(s) => Some(s),
        Err(_) => None,
    }
}

/// Whether the sequence holds a colon at all.
pub open spec fn has_colon(s: Seq<char>) -> bool {
    exists|i: int| 0 <= i < s.len() && s[i] == ':'
}

/// The index of the first colon (meaningful only when `has_colon` holds).
pub open spec fn first_colon_of(s: Seq<char>) -> int {
    choose|i: int|
        0 <= i < s.len() && s[i] == ':' && (forall|j: int| 0 <= j < i ==> s[j] != ':')
}

/// What HTTP Basic authentication makes of an Authorization header value:
/// the value must start with `Basic `, the rest must decode from base64 to
/// UTF-8 text, and that text splits at its first colon into username and
/// password.
pub open spec fn basic_auth_spec(h: Seq<char>) -> Option<(Seq<char>, Seq<char>)> {
    if !(h.len() >= 6 && h.take(6) == "Basic "@) {
        None
    } else {
        match base64_decoded(h.skip(6)) {
            None => None,
            Some(bytes) => match utf8_decoded(bytes) {
                None => None,
                Some(chars) => if has_colon(chars) {
                    Some(
                        (
                            chars.take(first_colon_of(chars)),
                            chars.skip(first_colon_of(chars) + 1),
                        ),
                    )
                } else {
                    None
                },
            },
        }
    }
}

/// Extracts the Basic credential from the Authorization header, exactly as
/// `basic_auth_spec` reads it; any malformed or missing header is the one
/// authentication failure.
pub fn basic_auth(authorization: Option<&str>) -> (r: Result<Credential, NewsletterError>)
    ensures
        match r {
            Ok(c) => authorization matches Some(h) && basic_auth_spec(h@) == Some(
                (c.username@, c.password@),
            ),
            Err(e) => e is AuthError && (match authorization {
                None => true,
                Some(h) => basic_auth_spec(h@) is None,
            }),
        },
{
    let header = match authorization {
        Some(h) => h,
        None => { return Err(NewsletterError::AuthError); },
    };
    if !starts_with(header, "Basic ") {
        proof {
            reveal_strlit("Basic ");
        }
        return Err(NewsletterError::AuthError);
    }
    proof {
        reveal_strlit("Basic ");
    }
    let encoded = substring(header, 6, header.unicode_len());
    proof {
        assert(encoded@ =~= header@.skip(6));
    }
    let decoded_bytes = match decode_base64(encoded.as_str()) {
        Some(bytes) => bytes,
        None => { return Err(NewsletterError::AuthError); },
    };
    let decoded = match bytes_to_string(decoded_bytes) {
        Some(s) => s,
        None => { return Err(NewsletterError::AuthError); },
    };
    let colon = match find_char(decoded.as_str(), ':') {
        Some(i) => i,
        None => { return Err(NewsletterError::AuthError); },
    };
    proof {
        let i = first_colon_of(decoded@);
        assert(0 <= colon < decoded@.len() && decoded@[colon as int] == ':' && (forall|j: int|
            0 <= j < colon ==> decoded@[j] != ':'));
        assert(0 <= i < decoded@.len() && decoded@[i] == ':' && (forall|j: int|
            0 <= j < i ==> decoded@[j] != ':'));
        assert(i == colon as int);
    }
    let decoded_len = decoded.as_str().unicode_len();
    assert(colon < decoded_len);
    let username = substring(decoded.as_str(), 0, colon);
    let password = substring(decoded.as_str(), colon + 1, decoded_len);
    proof {
        assert(username@ =~= decoded@.take(colon as int));
        assert(password@ =~= decoded@.skip(colon + 1));
    }
    Ok(Credential { username, password })
}

/// Validates a Basic credential for publishing; the decision is the shared
/// authentication decision, with its failures renamed for this route.
pub fn validate_credential(store: &Store, credential: Credential) -> (r: Result<
    u128,
    NewsletterError,
>)
    requires
        store.users_wf(),
    ensures
        match auth_outcome(*store, credential.username@, credential.password@) {
            Ok(id) => r == Ok::<u128, NewsletterError>(id),
            Err(AuthError::InvalidCredentials) => r == Err::<u128, NewsletterError>(
                NewsletterError::AuthError,
            ),
            Err(AuthError::UnexpectedError) => r == Err::<u128, NewsletterError>(
                NewsletterError::UnexpectedError,
            ),
        },
{
    let auth_credential = AuthCredential {
        username: credential.username,
        password: credential.password,
    };
    match validate_auth_credential(store, auth_credential) {
        Ok(id) => Ok(id),
        Err(AuthError::InvalidCredentials) => Err(NewsletterError::AuthError),
        Err(AuthError::UnexpectedError) => Err(NewsletterError::UnexpectedError),
    }
}

/// Checks a password candidate against a stored PHC hash, with the failures
/// renamed for this route.
pub fn verify_password(expected_password_hash: String, password_candidate: String) -> (r: Result<
    (),
    NewsletterError,
>)
    ensures
        r is Ok <==> (crate::password::phc_parses(expected_password_hash@)
            && crate::password::phc_match(password_candidate@, expected_password_hash@)),
        r == Err::<(), NewsletterError>(NewsletterError::UnexpectedError)
            <==> !crate::password::phc_parses(expected_password_hash@),
{
    match crate::authentication::verify_password(expected_password_hash, password_candidate) {
        Ok(()) => Ok(()),
        Err(AuthError::InvalidCredentials) => Err(NewsletterError::AuthError),
        Err(AuthError::UnexpectedError) => Err(NewsletterError::UnexpectedError),
    }
}

/// The stored (user id, password hash) pair for a username, if any.
pub fn get_stored_credential(username: &str, store: &Store) -> (r: Option<(u128, String)>)
    requires
        store.users_wf(),
    ensures
        match r {
            Some((id, hash)) => store.has_username(username@) && id == store.user_for(
                username@,
            ).user_id && hash@ == store.user_for(username@).password_hash@,
            None => !store.has_username(username@),
        },
{
    store.lookup_user(username)
}

/// A subscriber the newsletter goes to.
pub struct ConfirmedSubscriber {
    pub email: SubscriberEmail,
}

/// The email addresses of the confirmed subscriber rows, in table order.
pub open spec fn confirmed_emails_of(rows: Seq<SubscriberRecord>) -> Seq<Seq<char>>
    decreases rows.len(),
{
    if rows.len() == 0 {
        Seq::empty()
    } else {
        confirmed_emails_of(rows.drop_last()) + (if rows.last().status is Confirmed {
            seq![rows.last().email@]
        } else {
            Seq::<Seq<char>>::empty()
        })
    }
}

/// The addresses among `emails` that pass the email check, in order.
pub open spec fn valid_recipients_of(emails: Seq<Seq<char>>) -> Seq<Seq<char>>
    decreases emails.len(),
{
    if emails.len() == 0 {
        Seq::empty()
    } else {
        valid_recipients_of(emails.drop_last()) + (if is_valid_email(emails.last()) {
            seq![emails.last()]
        } else {
            Seq::<Seq<char>>::empty()
        })
    }
}

/// Reads every confirmed subscriber and re-validates the stored address:
/// one entry per confirmed row, in table order, `Ok` exactly when the
/// stored address still passes the email check.
pub fn get_confirmed_subscribers(store: &Store) -> (r: Vec<Result<ConfirmedSubscriber, String>>)
    ensures
        r@.len() == confirmed_emails_of(store.subscribers@).len(),
        forall|i: int|
            0 <= i < r@.len() ==> {
                &&& (#[trigger] r@[i] matches Ok(c) ==> c.email@ == confirmed_emails_of(
                    store.subscribers@,
                )[i])
                &&& (r@[i] is Ok <==> is_valid_email(confirmed_emails_of(store.subscribers@)[i]))
            },
{
    let n = store.subscribers.len();
    let mut out: Vec<Result<ConfirmedSubscriber, String>> = Vec::new();
    for i in 0..n
        invariant
            n == store.subscribers@.len(),
            out@.len() == confirmed_emails_of(store.subscribers@.take(i as int)).len(),
            forall|k: int|
                0 <= k < out@.len() ==> {
                    &&& (#[trigger] out@[k] matches Ok(c) ==> c.email@ == confirmed_emails_of(
                        store.subscribers@.take(i as int),
                    )[k])
                    &&& (out@[k] is Ok <==> is_valid_email(
                        confirmed_emails_of(store.subscribers@.take(i as int))[k],
                    ))
                },
    {
        proof {
            assert(store.subscribers@.take(i + 1).drop_last() =~= store.subscribers@.take(i as int));
            assert(store.subscribers@.take(i + 1).last() == store.subscribers@[i as int]);
        }
        match store.subscribers[i].status {
            SubscriptionStatus::Confirmed => {
                let email_string = store.subscribers[i].email.clone();
                match SubscriberEmail::parse(email_string) {
                    Ok(email) => out.push(Ok(ConfirmedSubscriber { email })),
                    Err(message) => out.push(Err(message)),
                }
            },
            SubscriptionStatus::PendingConfirmation => {},
        }
    }
    proof {
        assert(store.subscribers@.take(n as int) =~= store.subscribers@);
    }
    out
}

/// One newsletter email, ready for the external sender.
pub struct OutboundEmail {
    pub to: String,
    pub title: String,
    pub html: String,
    pub text: String,
}

/// The publish endpoint over the store model.
///
/// A missing or malformed Authorization header, and a rejected credential,
/// fail with the authentication error (answering 401 with the exact
/// challenge); an infrastructure fault fails with the server error. An
/// authenticated publisher gets one outbound email per confirmed subscriber
/// whose stored address is still valid, in table order, each carrying the
/// issue's title and both bodies.
pub fn newsletter(store: &Store, authorization: Option<&str>, mail_to_send: &Mail) -> (r: Result<
    Vec<OutboundEmail>,
    NewsletterError,
>)
    requires
        store.users_wf(),
    ensures
        (match authorization {
            None => true,
            Some(h) => basic_auth_spec(h@) is None,
        }) ==> r == Err::<Vec<OutboundEmail>, NewsletterError>(NewsletterError::AuthError),
        authorization matches Some(h) ==> (basic_auth_spec(h@) matches Some(cred) ==> (
        match auth_outcome(*store, cred.0, cred.1) {
            Err(AuthError::InvalidCredentials) => r == Err::<Vec<OutboundEmail>, NewsletterError>(
                NewsletterError::AuthError,
            ),
            Err(AuthError::UnexpectedError) => r == Err::<Vec<OutboundEmail>, NewsletterError>(
                NewsletterError::UnexpectedError,
            ),
            Ok(user_id) => r matches Ok(sent) && {
                let recipients = valid_recipients_of(confirmed_emails_of(store.subscribers@));
                &&& sent@.len() == recipients.len()
                &&& forall|i: int|
                    0 <= i < sent@.len() ==> {
                        &&& (#[trigger] sent@[i]).to@ == recipients[i]
                        &&& sent@[i].title@ == mail_to_send.title@
                        &&& sent@[i].html@ == mail_to_send.content.html@
                        &&& sent@[i].text@ == mail_to_send.content.text@
                    }
            },
        })),
{
    let credential = match basic_auth(authorization) {
        Ok(c) => c,
        Err(e) => { return Err(e); },
    };
    let _user_id = match validate_credential(store, credential) {
        Ok(id) => id,
        Err(e) => { return Err(e); },
    };
    let saved = get_confirmed_subscribers(store);
    let ghost emails = confirmed_emails_of(store.subscribers@);
    let n = saved.len();
    let mut sent: Vec<OutboundEmail> = Vec::new();
    for i in 0..n
        invariant
            n == saved@.len(),
            saved@.len() == emails.len(),
            emails == confirmed_emails_of(store.subscribers@),
            forall|k: int|
                0 <= k < saved@.len() ==> {
                    &&& (#[trigger] saved@[k] matches Ok(c) ==> c.email@ == emails[k])
                    &&& (saved@[k] is Ok <==> is_valid_email(emails[k]))
                },
            sent@.len() == valid_recipients_of(emails.take(i as int)).len(),
            forall|k: int|
                0 <= k < sent@.len() ==> {
                    &&& (#[trigger] sent@[k]).to@ == valid_recipients_of(emails.take(i as int))[k]
                    &&& sent@[k].title@ == mail_to_send.title@
                    &&& sent@[k].html@ == mail_to_send.content.html@
                    &&& sent@[k].text@ == mail_to_send.content.text@
                },
    {
        proof {
            assert(emails.take(i + 1).drop_last() =~= emails.take(i as int));
            assert(emails.take(i + 1).last() == emails[i as int]);
        }
        match &saved[i] {
            Ok(subscriber) => {
                sent.push(
                    OutboundEmail {
                        to: String::from_str(subscriber.email.as_ref()),
                        title: mail_to_send.title.clone(),
                        html: mail_to_send.content.html.clone(),
                        text: mail_to_send.content.text.clone(),
                    },
                );
            },
            Err(_) => {},
        }
    }
    proof {
        assert(emails.take(n as int) =~= emails);
    }
    Ok(sent)
}

} // verus!
