use zero2prod::store::{Store, SubscriptionStatus};
use zero2prod::domain::NewSubscriber;
use zero2prod::subscriptions::{subscribe, subscribe_transaction, StorageFaults, SubscribeError, SubscriptionForm};
use zero2prod::subscriptions_confirm::{confirm, ConfirmFaults, Parameters};

fn form(name: &str, email: &str) -> SubscriptionForm {
    SubscriptionForm {
        name: name.to_string(),
        email: email.to_string(),
    }
}

const BASE_URL: &str = "https://my-api.com";

#[test]
fn subscribe_return_a_200_is_ok_and_saves_data() {
    let mut store = Store::new();
    let outcome = subscribe(
        &mut store,
        BASE_URL,
        form("le guin", "ursula_le_guin@gmail.com"),
        StorageFaults::none(),
    );
    let notification = outcome.expect("a valid form must subscribe");

    assert_eq!(store.subscribers.len(), 1);
    assert_eq!(store.subscribers[0].email, "ursula_le_guin@gmail.com");
    assert_eq!(store.subscribers[0].name, "le guin");
    assert_eq!(
        store.subscribers[0].status,
        SubscriptionStatus::PendingConfirmation
    );
    assert_eq!(store.tokens.len(), 1);
    assert_eq!(store.tokens[0].subscriber_id, store.subscribers[0].id);

    let token = store.tokens[0].subscription_token.clone();
    let link = format!("{BASE_URL}/subscription/confirm?subscription_token={token}");
    assert_eq!(notification.to, "ursula_le_guin@gmail.com");
    assert_eq!(notification.subject, "Welcome!");
    assert_eq!(
        notification.html_body,
        format!(
            "Welcome to our newsletter!<br />Click <a href=\"{link}\">here</a> to confirm your subscription."
        )
    );
    assert_eq!(
        notification.text_body,
        format!("Welcome to our newsletter!\nVisit {link} to confirm your subscription.")
    );
}

#[test]
fn subscription_tokens_are_32_alphanumeric_characters() {
    let mut store = Store::new();
    subscribe(
        &mut store,
        BASE_URL,
        form("le guin", "ursula_le_guin@gmail.com"),
        StorageFaults::none(),
    )
    .expect("a valid form must subscribe");
    let token = &store.tokens[0].subscription_token;
    assert_eq!(token.chars().count(), 32);
    assert!(token.chars().all(|c| c.is_ascii_alphanumeric()));
}

#[test]
fn subscribe_return_400_is_not_ok() {
    let cases = [
        ("sdfsdf", "", "missing the email"),
        ("", "ursula_le_guin@gmail.com", "missing name"),
        ("", "", "Missing email and name"),
        ("Ursula", "definetelynotanemail", "fake email"),
    ];
    for (name, email, description) in cases {
        let mut store = Store::new();
        let outcome = subscribe(&mut store, BASE_URL, form(name, email), StorageFaults::none());
        let error = match outcome {
            Err(e) => e,
            Ok(_) => panic!("the api did not fail with 400 on {description}"),
        };
        assert_eq!(error, SubscribeError::ValidationError);
        assert_eq!(error.status_code(), 400);
        assert_eq!(store.subscribers.len(), 0, "no row persisted on {description}");
        assert_eq!(store.tokens.len(), 0);
    }
}

#[test]
fn a_rejected_subscription_dispatches_no_notification() {
    let mut store = Store::new();
    let outcome = subscribe(
        &mut store,
        BASE_URL,
        form("", "ursula_le_guin@gmail.com"),
        StorageFaults::none(),
    );
    assert!(outcome.is_err());
    assert_eq!(store.subscribers.len(), 0);
}

#[test]
fn a_token_persistence_fault_leaves_no_subscriber_row() {
    let mut store = Store::new();
    let faults = StorageFaults {
        begin_fails: false,
        insert_subscriber_fails: false,
        insert_token_fails: true,
        commit_fails: false,
    };
    let outcome = subscribe(
        &mut store,
        BASE_URL,
        form("le guin", "ursula_le_guin@gmail.com"),
        faults,
    );
    assert_eq!(outcome.err(), Some(SubscribeError::UnexpectedError));
    assert_eq!(SubscribeError::UnexpectedError.status_code(), 500);
    assert_eq!(store.subscribers.len(), 0);
    assert_eq!(store.tokens.len(), 0);
}

#[test]
fn a_commit_fault_leaves_no_subscriber_row() {
    let mut store = Store::new();
    let faults = StorageFaults {
        begin_fails: false,
        insert_subscriber_fails: false,
        insert_token_fails: false,
        commit_fails: true,
    };
    let outcome = subscribe(
        &mut store,
        BASE_URL,
        form("le guin", "ursula_le_guin@gmail.com"),
        faults,
    );
    assert!(outcome.is_err());
    assert_eq!(store.subscribers.len(), 0);
    assert_eq!(store.tokens.len(), 0);
}

#[test]
fn every_pending_subscriber_has_exactly_one_token() {
    let mut store = Store::new();
    subscribe(
        &mut store,
        BASE_URL,
        form("le guin", "ursula_le_guin@gmail.com"),
        StorageFaults::none(),
    )
    .expect("first subscription must succeed");
    subscribe(
        &mut store,
        BASE_URL,
        form("other name", "other_subscriber@gmail.com"),
        StorageFaults::none(),
    )
    .expect("second subscription must succeed");

    assert_eq!(store.subscribers.len(), 2);
    for subscriber in &store.subscribers {
        let linked = store
            .tokens
            .iter()
            .filter(|t| t.subscriber_id == subscriber.id)
            .count();
        assert_eq!(linked, 1);
        assert_eq!(subscriber.status, SubscriptionStatus::PendingConfirmation);
    }
}

#[test]
fn the_link_returned_by_subscriptions_return_200_if_called() {
    let mut store = Store::new();
    subscribe(
        &mut store,
        BASE_URL,
        form("le guin", "ursula_le_guin@gmail.com"),
        StorageFaults::none(),
    )
    .expect("the subscription must succeed");
    let parameters = Parameters {
        subscription_token: store.tokens[0].subscription_token.clone(),
    };
    let status = confirm(&mut store, Some(&parameters), ConfirmFaults::none());
    assert_eq!(status, 200);
}

#[test]
fn clicking_on_confirmation_link_should_switch_status() {
    let mut store = Store::new();
    subscribe(
        &mut store,
        BASE_URL,
        form("le guin", "ursula_le_guin@gmail.com"),
        StorageFaults::none(),
    )
    .expect("the subscription must succeed");
    let parameters = Parameters {
        subscription_token: store.tokens[0].subscription_token.clone(),
    };
    let status = confirm(&mut store, Some(&parameters), ConfirmFaults::none());
    assert_eq!(status, 200);
    assert_eq!(store.subscribers[0].status, SubscriptionStatus::Confirmed);
    assert_eq!(store.subscribers[0].email, "ursula_le_guin@gmail.com");
}

#[test]
fn confirming_twice_succeeds_and_stays_confirmed() {
    let mut store = Store::new();
    subscribe(
        &mut store,
        BASE_URL,
        form("le guin", "ursula_le_guin@gmail.com"),
        StorageFaults::none(),
    )
    .expect("the subscription must succeed");
    let parameters = Parameters {
        subscription_token: store.tokens[0].subscription_token.clone(),
    };
    assert_eq!(confirm(&mut store, Some(&parameters), ConfirmFaults::none()), 200);
    let after_first: Vec<(u128, SubscriptionStatus)> =
        store.subscribers.iter().map(|s| (s.id, s.status)).collect();
    assert_eq!(confirm(&mut store, Some(&parameters), ConfirmFaults::none()), 200);
    let after_second: Vec<(u128, SubscriptionStatus)> =
        store.subscribers.iter().map(|s| (s.id, s.status)).collect();
    assert_eq!(after_first, after_second);
    assert_eq!(store.subscribers[0].status, SubscriptionStatus::Confirmed);
}

#[test]
fn an_unknown_token_is_unauthorized_and_mutates_nothing() {
    let mut store = Store::new();
    subscribe(
        &mut store,
        BASE_URL,
        form("le guin", "ursula_le_guin@gmail.com"),
        StorageFaults::none(),
    )
    .expect("the subscription must succeed");
    let parameters = Parameters {
        subscription_token: "00000000000000000000000000000000".to_string(),
    };
    let status = confirm(&mut store, Some(&parameters), ConfirmFaults::none());
    assert_eq!(status, 401);
    assert_eq!(store.subscribers.len(), 1);
    assert_eq!(
        store.subscribers[0].status,
        SubscriptionStatus::PendingConfirmation
    );
}

#[test]
fn confirmation_without_token_are_rejected() {
    let mut store = Store::new();
    let status = confirm(&mut store, None, ConfirmFaults::none());
    assert_eq!(status, 400);
}

#[test]
fn a_confirmation_storage_fault_is_a_server_error() {
    let mut store = Store::new();
    subscribe(
        &mut store,
        BASE_URL,
        form("le guin", "ursula_le_guin@gmail.com"),
        StorageFaults::none(),
    )
    .expect("the subscription must succeed");
    let parameters = Parameters {
        subscription_token: store.tokens[0].subscription_token.clone(),
    };
    let faults = ConfirmFaults {
        begin_fails: false,
        lookup_fails: false,
        update_fails: true,
        commit_fails: false,
    };
    let status = confirm(&mut store, Some(&parameters), faults);
    assert_eq!(status, 500);
    assert_eq!(
        store.subscribers[0].status,
        SubscriptionStatus::PendingConfirmation
    );
}

#[test]
fn two_subscriptions_mint_distinct_tokens() {
    let mut store = Store::new();
    subscribe(
        &mut store,
        BASE_URL,
        form("le guin", "ursula_le_guin@gmail.com"),
        StorageFaults::none(),
    )
    .expect("first subscription must succeed");
    subscribe(
        &mut store,
        BASE_URL,
        form("other name", "other_subscriber@gmail.com"),
        StorageFaults::none(),
    )
    .expect("second subscription must succeed");
    assert_ne!(
        store.tokens[0].subscription_token,
        store.tokens[1].subscription_token
    );
}

#[test]
fn try_from_checks_name_then_email() {
    assert!(NewSubscriber::try_from(form("le guin", "ursula_le_guin@gmail.com")).is_ok());
    assert!(NewSubscriber::try_from(form("", "ursula_le_guin@gmail.com")).is_err());
    assert!(NewSubscriber::try_from(form("le guin", "not-an-email")).is_err());
}

#[test]
fn the_transaction_is_deterministic_given_its_identifiers() {
    let mut store = Store::new();
    let newsubscriber = NewSubscriber::try_from(form("le guin", "ursula_le_guin@gmail.com"))
        .expect("the form is valid");
    let outcome = subscribe_transaction(
        &mut store,
        &newsubscriber,
        StorageFaults::none(),
        9,
        "aaaaaaaaaaaaaaaaaaaaaaaaaaaaaaaa".to_string(),
        12345,
    );
    assert_eq!(outcome, Ok(()));
    assert_eq!(store.subscribers.len(), 1);
    assert_eq!(store.subscribers[0].id, 9);
    assert_eq!(store.subscribers[0].subscribed_at, 12345);
    assert_eq!(store.tokens[0].subscription_token, "aaaaaaaaaaaaaaaaaaaaaaaaaaaaaaaa");
    assert_eq!(store.tokens[0].subscriber_id, 9);

    // a second transaction reusing either identifier is a key violation
    let other = NewSubscriber::try_from(form("other name", "other_subscriber@gmail.com"))
        .expect("the form is valid");
    let reused_id = subscribe_transaction(
        &mut store,
        &other,
        StorageFaults::none(),
        9,
        "bbbbbbbbbbbbbbbbbbbbbbbbbbbbbbbb".to_string(),
        12346,
    );
    assert_eq!(reused_id, Err(SubscribeError::UnexpectedError));
    let reused_token = subscribe_transaction(
        &mut store,
        &other,
        StorageFaults::none(),
        10,
        "aaaaaaaaaaaaaaaaaaaaaaaaaaaaaaaa".to_string(),
        12346,
    );
    assert_eq!(reused_token, Err(SubscribeError::UnexpectedError));
    assert_eq!(store.subscribers.len(), 1);
}
