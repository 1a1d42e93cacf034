use session_based_authentication::domain::subscriber_name::{is_forbidden_char, is_whitespace_char, name_is_acceptable};
use session_based_authentication::domain::{NewSubscriber, SubscriberEmail, SubscriberName};
use session_based_authentication::routes::subscriptions::FormData;

fn form(email: &str, name: &str) -> FormData {
    FormData { email: email.to_string(), name: name.to_string() }
}

#[test]
fn a_256_grapheme_long_name_is_valid() {
    let name = "a\u{30a}".repeat(256);
    assert!(SubscriberName::parse(name).is_ok());
}

#[test]
fn a_name_longer_than_256_graphemes_is_rejected() {
    let name = "a".repeat(257);
    assert!(SubscriberName::parse(name).is_err());
}

#[test]
fn a_name_of_256_ascii_letters_is_valid() {
    let name = "a".repeat(256);
    assert!(SubscriberName::parse(name).is_ok());
}

#[test]
fn whitespace_only_names_are_rejected() {
    for name in [" ", "\t\n", "\u{3000}", "\u{a0} \u{2009}"] {
        assert!(SubscriberName::parse(name.to_string()).is_err(), "{:?}", name);
    }
}

#[test]
fn empty_string_is_rejected() {
    let res = SubscriberName::parse("".to_string());
    assert_eq!(res.err(), Some(" is not a valid subscriber name.".to_string()));
}

#[test]
fn names_containing_an_invalid_character_are_rejected() {
    for c in ['/', '(', ')', '"', '<', '>', '\\', '{', '}'] {
        let name = format!("Ursula{}", c);
        assert_eq!(
            SubscriberName::parse(name.clone()).err(),
            Some(format!("{} is not a valid subscriber name.", name))
        );
    }
}

#[test]
fn a_valid_name_is_parsed_successfully_and_kept() {
    let name = SubscriberName::parse("Ursula Le Guin".to_string()).unwrap();
    assert_eq!(name.as_ref(), "Ursula Le Guin");
}

#[test]
fn a_name_with_surrounding_spaces_is_kept_unchanged() {
    let name = SubscriberName::parse("  Le Guin ".to_string()).unwrap();
    assert_eq!(name.as_ref(), "  Le Guin ");
}

#[test]
fn valid_email_is_parsed_and_kept() {
    let email = SubscriberEmail::parse("ursula@domain.com".to_string()).unwrap();
    assert_eq!(email.as_ref(), "ursula@domain.com");
}

#[test]
fn empty_email_is_rejected() {
    assert_eq!(
        SubscriberEmail::parse("".to_string()).err(),
        Some(" is not a valid subscriber email.".to_string())
    );
}

#[test]
fn email_missing_at_symbol_is_rejected() {
    assert_eq!(
        SubscriberEmail::parse("ursuladomain.com".to_string()).err(),
        Some("ursuladomain.com is not a valid subscriber email.".to_string())
    );
}

#[test]
fn email_missing_subject_is_rejected() {
    assert!(SubscriberEmail::parse("@domain.com".to_string()).is_err());
}

#[test]
fn from_verdict_follows_the_verdict() {
    assert_eq!(SubscriberEmail::from_verdict("x".to_string(), true), Ok("x".to_string()));
    assert_eq!(
        SubscriberEmail::from_verdict("x".to_string(), false),
        Err("x is not a valid subscriber email.".to_string())
    );
}

#[test]
fn a_valid_form_gives_a_new_subscriber() {
    let s = NewSubscriber::try_from(form("le_guin@gmail.com", "le guin")).unwrap();
    assert_eq!(s.email.as_ref(), "le_guin@gmail.com");
    assert_eq!(s.name.as_ref(), "le guin");
}

#[test]
fn a_form_with_an_invalid_name_reports_the_name() {
    let res = NewSubscriber::try_from(form("le_guin@gmail.com", ""));
    assert_eq!(res.err(), Some(" is not a valid subscriber name.".to_string()));
}

#[test]
fn a_form_with_an_invalid_email_reports_the_email() {
    let res = NewSubscriber::try_from(form("definitely-not-an-email", "Ursula"));
    assert_eq!(
        res.err(),
        Some("definitely-not-an-email is not a valid subscriber email.".to_string())
    );
}

#[test]
fn a_form_with_both_fields_invalid_reports_the_name_first() {
    let res = NewSubscriber::try_from(form("", "<script>"));
    assert_eq!(res.err(), Some("<script> is not a valid subscriber name.".to_string()));
}

#[test]
fn whitespace_agrees_with_the_standard_library_on_every_char() {
    for code in 0u32..=0x10FFFF {
        if let Some(c) = char::from_u32(code) {
            assert_eq!(is_whitespace_char(c), c.is_whitespace(), "U+{:04X}", code);
        }
    }
}

#[test]
fn only_the_listed_characters_are_forbidden() {
    let listed = ['/', '(', ')', '"', '<', '>', '\\', '{', '}'];
    for code in 0u32..0x3000 {
        if let Some(c) = char::from_u32(code) {
            assert_eq!(is_forbidden_char(c), listed.contains(&c), "U+{:04X}", code);
        }
    }
}

#[test]
fn name_rules_with_a_given_grapheme_count() {
    assert!(name_is_acceptable("Ursula", 6));
    assert!(name_is_acceptable("Ursula", 256));
    assert!(!name_is_acceptable("Ursula", 257));
    assert!(!name_is_acceptable(" \u{85}\u{1680} ", 4));
    assert!(!name_is_acceptable("Ur{sula", 7));
}
