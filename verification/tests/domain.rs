use z2pgh::domain::{char_is_whitespace, SubscriberEmail, SubscriberName};

#[test]
fn a_valid_name_is_parsed_successfully() {
    let name = SubscriberName::parse("Ursula Le Guin".to_string()).unwrap();
    assert_eq!(name.as_ref(), "Ursula Le Guin");
}

#[test]
fn a_256_grapheme_long_name_is_valid() {
    let name = "ё".repeat(256);
    assert!(SubscriberName::parse(name).is_ok());
}

#[test]
fn a_name_longer_than_256_graphemes_is_rejected() {
    let name = "a".repeat(257);
    assert!(SubscriberName::parse(name).is_err());
}

#[test]
fn whitespace_only_names_are_rejected() {
    assert!(SubscriberName::parse(" \t\n ".to_string()).is_err());
}

#[test]
fn empty_string_is_rejected_as_name() {
    let err = SubscriberName::parse("".to_string()).err().unwrap();
    assert_eq!(err, " is not a valid subscriber name.");
}

#[test]
fn names_containing_an_invalid_character_are_rejected() {
    for c in ['/', '(', ')', '"', '<', '>', '\\', '{', '}'] {
        let name = format!("Ursula{}", c);
        let err = SubscriberName::parse(name.clone()).err().unwrap();
        assert_eq!(err, format!("{} is not a valid subscriber name.", name));
    }
}

#[test]
fn a_valid_email_is_parsed_successfully() {
    let email = SubscriberEmail::parse("ursula_le_guin@gmail.com".to_string()).unwrap();
    assert_eq!(email.as_ref(), "ursula_le_guin@gmail.com");
    assert_eq!(email.clone().as_ref(), "ursula_le_guin@gmail.com");
}

#[test]
fn empty_string_is_rejected_as_email() {
    assert!(SubscriberEmail::parse("".to_string()).is_err());
}

#[test]
fn email_missing_at_symbol_is_rejected() {
    let err = SubscriberEmail::parse("ursuladomain.com".to_string()).err().unwrap();
    assert_eq!(err, "ursuladomain.com is not a valid subscriber email.");
}

#[test]
fn email_missing_subject_is_rejected() {
    assert!(SubscriberEmail::parse("@domain.com".to_string()).is_err());
}

#[test]
fn not_an_email_is_rejected() {
    assert!(SubscriberEmail::parse("definitely-not-an-email".to_string()).is_err());
}

#[test]
fn white_space_is_what_the_standard_library_says() {
    for code in 0u32..0x11_0000 {
        if let Some(c) = char::from_u32(code) {
            assert_eq!(char_is_whitespace(c), c.is_whitespace(), "U+{:04X}", code);
        }
    }
}

#[test]
fn names_of_unicode_white_space_only_are_rejected() {
    assert!(SubscriberName::parse("\u{3000}\u{a0}\u{2009}".to_string()).is_err());
    assert!(SubscriberName::parse("\u{200b}".to_string()).is_ok());
}
