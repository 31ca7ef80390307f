use argon2::password_hash::rand_core::OsRng;
use argon2::password_hash::SaltString;
use argon2::{Argon2, PasswordHasher};
use base64::Engine;
use zero2prod::newsletter::{basic_auth, newsletter, Mail, MailContent, NewsletterError};
use zero2prod::store::{Store, SubscriptionStatus};
use zero2prod::subscriptions::{subscribe, StorageFaults, SubscriptionForm};
use zero2prod::subscriptions_confirm::{confirm, ConfirmFaults, Parameters};

fn newsletter_mail() -> Mail {
    Mail {
        title: "Newsletter title".to_string(),
        content: MailContent {
            html: "<p>Newsletter body as HTML</p>".to_string(),
            text: "Newsletter body as plain text".to_string(),
        },
    }
}

fn store_with_admin(username: &str, password: &str) -> Store {
    let salt = SaltString::generate(&mut OsRng);
    let hash = Argon2::default()
        .hash_password(password.as_bytes(), &salt)
        .expect("hashing must succeed")
        .to_string();
    let mut store = Store::new();
    store.add_user(1, username.to_string(), hash);
    store
}

fn add_subscriber(store: &mut Store, name: &str, email: &str, confirmed: bool) {
    subscribe(
        store,
        "https://my-api.com",
        SubscriptionForm {
            name: name.to_string(),
            email: email.to_string(),
        },
        StorageFaults::none(),
    )
    .expect("the subscription must succeed");
    if confirmed {
        let token = store
            .tokens
            .last()
            .expect("a token was just minted")
            .subscription_token
            .clone();
        let parameters = Parameters {
            subscription_token: token,
        };
        assert_eq!(confirm(store, Some(&parameters), ConfirmFaults::none()), 200);
    }
}

fn basic_header(username: &str, password: &str) -> String {
    let encoded =
        base64::engine::general_purpose::STANDARD.encode(format!("{username}:{password}"));
    format!("Basic {encoded}")
}

#[test]
fn without_authentification_should_be_rejected() {
    let store = store_with_admin("username", "password");
    let outcome = newsletter(&store, None, &newsletter_mail());
    let error = outcome.err().expect("no header must be rejected");
    assert_eq!(error, NewsletterError::AuthError);
    assert_eq!(error.status_code(), 401);
    let response = error.error_response();
    assert_eq!(response.status, 401);
    assert_eq!(
        response.www_authenticate.as_deref(),
        Some(r#"Basic realm="publish""#)
    );
}

#[test]
fn wrong_credentials_are_rejected_with_the_same_challenge() {
    let store = store_with_admin("username", "password");
    let header = basic_header("username", "wrong_password");
    let outcome = newsletter(&store, Some(header.as_str()), &newsletter_mail());
    assert_eq!(outcome.err(), Some(NewsletterError::AuthError));

    let header = basic_header("unknown_user", "password");
    let outcome = newsletter(&store, Some(header.as_str()), &newsletter_mail());
    assert_eq!(outcome.err(), Some(NewsletterError::AuthError));
}

#[test]
fn send_email_to_confirmed_user() {
    let mut store = store_with_admin("username", "password");
    add_subscriber(&mut store, "le guin", "ursula_le_guin@gmail.com", true);
    let header = basic_header("username", "password");
    let sent = newsletter(&store, Some(header.as_str()), &newsletter_mail())
        .expect("an authenticated publish must succeed");
    assert_eq!(sent.len(), 1);
    assert_eq!(sent[0].to, "ursula_le_guin@gmail.com");
    assert_eq!(sent[0].title, "Newsletter title");
    assert_eq!(sent[0].html, "<p>Newsletter body as HTML</p>");
    assert_eq!(sent[0].text, "Newsletter body as plain text");
}

#[test]
fn should_not_send_mail_to_non_confirmed_user() {
    let mut store = store_with_admin("username", "password");
    add_subscriber(&mut store, "le guin", "ursula_le_guin@gmail.com", false);
    let header = basic_header("username", "password");
    let sent = newsletter(&store, Some(header.as_str()), &newsletter_mail())
        .expect("an authenticated publish must succeed");
    assert_eq!(sent.len(), 0);
}

#[test]
fn only_confirmed_subscribers_receive_the_issue() {
    let mut store = store_with_admin("username", "password");
    add_subscriber(&mut store, "le guin", "ursula_le_guin@gmail.com", true);
    add_subscriber(&mut store, "other name", "still_pending@gmail.com", false);
    add_subscriber(&mut store, "third name", "also_confirmed@gmail.com", true);
    let header = basic_header("username", "password");
    let sent = newsletter(&store, Some(header.as_str()), &newsletter_mail())
        .expect("an authenticated publish must succeed");
    let recipients: Vec<&str> = sent.iter().map(|m| m.to.as_str()).collect();
    assert_eq!(
        recipients,
        vec!["ursula_le_guin@gmail.com", "also_confirmed@gmail.com"]
    );
    assert_eq!(
        store.subscribers[1].status,
        SubscriptionStatus::PendingConfirmation
    );
}

#[test]
fn basic_auth_splits_at_the_first_colon() {
    let header = basic_header("username", "pass:word");
    let credential = basic_auth(Some(header.as_str())).expect("a well-formed header must parse");
    assert_eq!(credential.username, "username");
    assert_eq!(credential.password, "pass:word");
}

#[test]
fn basic_auth_rejects_malformed_headers() {
    assert!(basic_auth(None).is_err());
    assert!(basic_auth(Some("Bearer abc")).is_err());
    let no_colon =
        format!("Basic {}", base64::engine::general_purpose::STANDARD.encode("nocolonhere"));
    assert!(basic_auth(Some(no_colon.as_str())).is_err());
    assert!(basic_auth(Some("Basic $$$not-base64$$$")).is_err());
}

#[test]
fn newsletter_error_status_codes() {
    assert_eq!(NewsletterError::UnexpectedError.status_code(), 500);
    assert_eq!(NewsletterError::AuthError.status_code(), 401);
    let response = NewsletterError::UnexpectedError.error_response();
    assert_eq!(response.status, 500);
    assert_eq!(response.www_authenticate, None);
}
