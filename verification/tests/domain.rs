use zero2prod::domain::{SubscriberEmail, SuscriberName};

#[test]
fn subscriber_email_empty_string_is_rejected() {
    let email = "".to_string();
    assert!(SubscriberEmail::parse(email).is_err());
}

#[test]
fn email_missing_at_symbol_is_rejected() {
    let email = "ursuladomain.com".to_string();
    assert!(SubscriberEmail::parse(email).is_err());
}

#[test]
fn email_missing_subject_is_rejected() {
    let email = "@domain.com".to_string();
    assert!(SubscriberEmail::parse(email).is_err());
}

#[test]
fn a_valid_email_is_parsed_successfully() {
    let email = "ursula_le_guin@gmail.com".to_string();
    let parsed = SubscriberEmail::parse(email).expect("a plain address must parse");
    assert_eq!(parsed.as_ref(), "ursula_le_guin@gmail.com");
}

#[test]
fn email_parse_error_names_the_input() {
    let err = SubscriberEmail::parse("definetelynotanemail".to_string()).unwrap_err();
    assert_eq!(err, "definetelynotanemail is not a valid subscriber email.");
}

#[test]
fn return_suscribername() {
    let string = "grosse banane";
    assert!(SuscriberName::parse(string.to_string()).is_ok());
}

#[test]
fn subscriber_name_empty_string_is_rejected() {
    let name = "".to_string();
    assert!(SuscriberName::parse(name).is_err());
}

#[test]
fn whitespace_only_names_are_rejected() {
    let name = "   ".to_string();
    assert!(SuscriberName::parse(name).is_err());
}

#[test]
fn names_containing_an_invalid_character_are_rejected() {
    for name in &['/', '(', ')', '"', '<', '>', '\\', '{', '}'] {
        let name = name.to_string();
        assert!(SuscriberName::parse(name).is_err());
    }
}

#[test]
fn a_valid_name_is_parsed_successfully() {
    let name = "Ursula Le Guin".to_string();
    assert!(SuscriberName::parse(name).is_ok());
}

#[test]
fn a_256_grapheme_long_name_is_valid() {
    let name = "a".repeat(256);
    assert!(SuscriberName::parse(name).is_ok());
}

#[test]
fn a_name_longer_than_256_graphemes_is_rejected() {
    let name = "a".repeat(257);
    assert!(SuscriberName::parse(name).is_err());
}

#[test]
fn parsing_keeps_the_exact_name() {
    let parsed = SuscriberName::parse("le guin".to_string()).expect("must parse");
    assert_eq!(parsed.as_ref(), "le guin");
}
