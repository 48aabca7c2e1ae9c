use email_newsletter::domain::new_subscriber::NewSubscriber;
use email_newsletter::domain::subscriber_email::{email_is_valid, SubscriberEmail};
use email_newsletter::domain::subscriber_name::{
    contains_forbidden, name_is_acceptable, SubscriberName, MAX_NAME_GRAPHEMES,
};
use email_newsletter::domain::text::{alphanumeric, chars_of};
use email_newsletter::domain::validation_error::ValidationError;
use email_newsletter::routes::subscriptions::FormData;

#[test]
fn a_256_grapheme_long_name_is_valid() {
    let name = "a".repeat(256);
    let parsed = SubscriberName::parse(name.clone());
    assert_eq!(parsed.ok().map(|n| n.as_ref().to_string()), Some(name));
}

#[test]
fn a_name_longer_than_256_graphemes_is_rejected() {
    let name = "a".repeat(257);
    assert_eq!(SubscriberName::parse(name).err(), Some(ValidationError::InvalidName));
}

#[test]
fn name_length_is_counted_in_graphemes_not_characters() {
    // 256 clusters of two characters each, 768 bytes in all.
    let name = "e\u{301}".repeat(256);
    assert_eq!(name.chars().count(), 512);
    assert!(SubscriberName::parse(name).is_ok());
    let name = "e\u{301}".repeat(257);
    assert_eq!(SubscriberName::parse(name).err(), Some(ValidationError::InvalidName));
}

#[test]
fn whitespace_only_names_are_rejected() {
    for name in [" ", "   ", "\t", "\n", " \t\r\n ", "\u{2003}", "\u{3000} "] {
        assert_eq!(
            SubscriberName::parse(name.to_string()).err(),
            Some(ValidationError::InvalidName),
            "{:?}",
            name
        );
    }
}

#[test]
fn empty_string_is_rejected() {
    assert_eq!(SubscriberName::parse(String::new()).err(), Some(ValidationError::InvalidName));
}

#[test]
fn names_containing_an_invalid_character_are_rejected() {
    for c in ['/', '(', ')', '"', '<', '>', '\\', '{', '}'] {
        let name = format!("Ursula{}Le Guin", c);
        assert!(contains_forbidden(&name));
        assert_eq!(SubscriberName::parse(name).err(), Some(ValidationError::InvalidName));
        assert_eq!(SubscriberName::parse(c.to_string()).err(), Some(ValidationError::InvalidName));
    }
}

#[test]
fn a_valid_name_is_parsed_successfully() {
    for name in ["Ursula Le Guin", "le guin", "Zoë Łukasiewicz", "  padded  ", "x", "名前", "a-b_c.d'e"] {
        assert!(!contains_forbidden(name));
        let parsed = SubscriberName::parse(name.to_string()).expect("a valid name");
        assert_eq!(parsed.as_ref(), name);
    }
}

#[test]
fn characters_are_read_in_order() {
    assert_eq!(chars_of(""), Vec::<char>::new());
    assert_eq!(chars_of("aé名🙂"), vec!['a', 'é', '名', '🙂']);
}

#[test]
fn valid_emails_are_parsed_and_kept_unchanged() {
    for email in [
        "ursula_le_guin@gmail.com",
        "ursula@domain.com",
        "a@b",
        "user@localhost",
        "first.last+tag@sub-domain.example.org",
        "!#$%&'*+/=?^_`{|}~-@example.com",
        "A1@X9.y8",
        "a@b--c.d",
    ] {
        assert!(email_is_valid(email), "{}", email);
        let parsed = SubscriberEmail::parse(email.to_string()).expect("a valid address");
        assert_eq!(parsed.as_ref(), email);
        assert_eq!(parsed.clone().as_ref(), email);
    }
}

#[test]
fn empty_email_is_rejected() {
    assert_eq!(SubscriberEmail::parse(String::new()).err(), Some(ValidationError::InvalidEmail));
}

#[test]
fn email_missing_at_symbol_is_rejected() {
    for email in ["ursuladomain.com", "definitely-not-an-email", "not-an-email", "a.b.c"] {
        assert!(!email_is_valid(email));
        assert_eq!(
            SubscriberEmail::parse(email.to_string()).err(),
            Some(ValidationError::InvalidEmail)
        );
    }
}

#[test]
fn email_missing_subject_is_rejected() {
    assert_eq!(
        SubscriberEmail::parse("@domain.com".to_string()).err(),
        Some(ValidationError::InvalidEmail)
    );
}

#[test]
fn email_missing_domain_is_rejected() {
    for email in ["ursula@", "@", "a@b@"] {
        assert_eq!(
            SubscriberEmail::parse(email.to_string()).err(),
            Some(ValidationError::InvalidEmail)
        );
    }
}

#[test]
fn malformed_emails_are_rejected() {
    for email in [
        "a@b..c",
        "a@.b.c",
        "a@b.c.",
        "a@-b.c",
        "a@b-.c",
        "a@b.-c",
        "a@b.c-",
        "a@b@c.d",
        "a b@c.d",
        "a@b c.d",
        "a@b_c.d",
        "ursula@dömain.com",
        "ürsula@domain.com",
        "a(b)@c.d",
        " a@b.c",
        "a@b.c ",
    ] {
        assert!(!email_is_valid(email), "{}", email);
        assert_eq!(
            SubscriberEmail::parse(email.to_string()).err(),
            Some(ValidationError::InvalidEmail),
            "{}",
            email
        );
    }
}

#[test]
fn a_submission_with_two_valid_fields_becomes_a_subscriber() {
    let form = FormData { email: "ursula_le_guin@gmail.com".to_string(), name: "le guin".to_string() };
    let subscriber = NewSubscriber::try_from(form).ok().expect("a valid submission");
    assert_eq!(subscriber.name.as_ref(), "le guin");
    assert_eq!(subscriber.email.as_ref(), "ursula_le_guin@gmail.com");
}

#[test]
fn the_name_is_judged_before_the_email() {
    let form = FormData { email: "nope".to_string(), name: "".to_string() };
    assert_eq!(NewSubscriber::try_from(form).err(), Some(ValidationError::InvalidName));
    let form = FormData { email: "nope".to_string(), name: "Ursula".to_string() };
    assert_eq!(NewSubscriber::try_from(form).err(), Some(ValidationError::InvalidEmail));
    let form = FormData { email: "a@b.c".to_string(), name: "Ur<sula".to_string() };
    assert_eq!(NewSubscriber::try_from(form).err(), Some(ValidationError::InvalidName));
}

#[test]
fn letters_and_digits_are_alphanumeric() {
    for c in ['a', 'z', 'A', 'Z', '0', '9', 'm', 'Q', '5'] {
        assert!(alphanumeric(c));
    }
    for c in ['`', '{', '@', '[', '/', ':', ' ', '-', '.', 'é', 'ß', '٣'] {
        assert!(!alphanumeric(c));
    }
}

#[test]
fn a_name_is_judged_by_blankness_length_and_characters() {
    assert_eq!(MAX_NAME_GRAPHEMES, 256);
    assert!(name_is_acceptable("le guin", false, 7));
    assert!(name_is_acceptable("le guin", false, 256));
    assert!(!name_is_acceptable("le guin", false, 257));
    assert!(!name_is_acceptable("le guin", true, 7));
    assert!(!name_is_acceptable("le {guin", false, 8));
}

fn text_of<T: AsRef<str>>(value: &T) -> String {
    value.as_ref().to_string()
}

#[test]
fn the_text_is_had_through_the_conversion_trait_too() {
    let name = SubscriberName::parse("le guin".to_string()).ok().expect("a valid name");
    assert_eq!(text_of(&name), "le guin");
    assert_eq!(AsRef::<str>::as_ref(&name), "le guin");
    let email =
        SubscriberEmail::parse("ursula_le_guin@gmail.com".to_string()).ok().expect("valid");
    assert_eq!(text_of(&email), "ursula_le_guin@gmail.com");
    assert_eq!(AsRef::<str>::as_ref(&email), "ursula_le_guin@gmail.com");
}
