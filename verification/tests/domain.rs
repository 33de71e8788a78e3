use newsletter::domain::SubscriberEmail;
use newsletter::domain::SubscriberName;

#[test]
fn a_256_grapheme_long_name_is_valid() {
    let name = "ë".repeat(256);
    assert!(SubscriberName::parse(name).is_ok());
}

#[test]
fn a_name_longer_than_256_grapheme_is_rejected() {
    let name = "ë".repeat(257);
    assert!(SubscriberName::parse(name).is_err());
}

#[test]
fn white_space_only_names_are_rejected() {
    let name = " ".to_string();
    assert!(SubscriberName::parse(name).is_err());
}

#[test]
fn empty_string_is_rejected() {
    let name = "".to_string();
    assert!(SubscriberName::parse(name).is_err());
}

#[test]
fn names_containing_an_invalid_character_are_rejected() {
    for name in &['/', '(', ')', '"', '<', '>', '\\', '{', '}'] {
        let name = name.to_string();
        assert!(SubscriberName::parse(name).is_err());
    }
}

#[test]
fn a_valid_name_is_parsed_successfully() {
    let name = "Úrsula Le Guin".to_string();
    assert!(SubscriberName::parse(name).is_ok());
}

#[test]
fn a_parsed_name_round_trips_the_exact_original_text() {
    let name = SubscriberName::parse("Úrsula Le Guin".to_string()).unwrap();
    assert_eq!(name.as_ref(), "Úrsula Le Guin");
}

#[test]
fn name_length_is_measured_in_graphemes_not_code_points() {
    // Each repetition is one user-perceived character made of two code
    // points: a base letter and a combining acute accent.
    let name = "e\u{0301}".repeat(256);
    assert_eq!(name.chars().count(), 512);
    assert!(SubscriberName::parse(name).is_ok());
    let name = "e\u{0301}".repeat(257);
    assert!(SubscriberName::parse(name).is_err());
}

#[test]
fn unicode_whitespace_only_names_are_rejected() {
    assert!(SubscriberName::parse("\t\r\n".to_string()).is_err());
    assert!(SubscriberName::parse("\u{00a0}\u{2007}".to_string()).is_err());
}

#[test]
fn a_forbidden_character_amid_valid_content_is_rejected() {
    let name = "Ursula (Le Guin)".to_string();
    assert!(SubscriberName::parse(name).is_err());
}

#[test]
fn a_plain_email_is_parsed_successfully() {
    let email = SubscriberEmail::parse("ursula@example.com".to_string()).unwrap();
    assert_eq!(email.as_ref(), "ursula@example.com");
}

#[test]
fn an_empty_email_is_rejected() {
    assert!(SubscriberEmail::parse("".to_string()).is_err());
}

#[test]
fn an_email_missing_the_at_symbol_is_rejected() {
    assert!(SubscriberEmail::parse("ursuladomain.com".to_string()).is_err());
}

#[test]
fn an_email_missing_the_local_part_is_rejected() {
    assert!(SubscriberEmail::parse("@domain.com".to_string()).is_err());
}

#[test]
fn an_email_missing_the_domain_is_rejected() {
    assert!(SubscriberEmail::parse("ursula@".to_string()).is_err());
}

#[test]
fn an_email_with_two_at_symbols_is_rejected() {
    assert!(SubscriberEmail::parse("ursula@le@guin.com".to_string()).is_err());
}
