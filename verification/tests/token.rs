use email_newsletter::message::{confirmation_email, confirmation_link};
use email_newsletter::domain::subscriber_email::SubscriberEmail;
use email_newsletter::token::{ConfirmationToken, TOKEN_LENGTH};

#[test]
fn a_token_has_25_alphanumeric_characters() {
    assert_eq!(TOKEN_LENGTH, 25);
    for _ in 0..100 {
        let token = ConfirmationToken::generate();
        assert_eq!(token.as_ref().len(), 25);
        assert!(token.as_ref().chars().all(|c| c.is_ascii_alphanumeric()));
        assert_eq!(token.clone().as_ref(), token.as_ref());
        assert!(token.matches(&token.as_ref().to_string()));
        assert!(!token.matches(&String::new()));
    }
}

#[test]
fn ten_thousand_tokens_are_all_different() {
    let mut seen = std::collections::HashSet::new();
    for _ in 0..10_000 {
        let token = ConfirmationToken::generate();
        assert!(token.as_ref().len() >= 25);
        assert!(token.as_ref().chars().all(|c| c.is_ascii_alphanumeric()));
        assert!(seen.insert(token.as_ref().to_string()));
    }
    assert_eq!(seen.len(), 10_000);
}

#[test]
fn tokens_use_more_than_one_character() {
    let token = ConfirmationToken::generate();
    let first = token.as_ref().chars().next();
    let mut varied = token.as_ref().chars().any(|c| Some(c) != first);
    for _ in 0..10 {
        let other = ConfirmationToken::generate();
        varied = varied || other.as_ref() != token.as_ref();
    }
    assert!(varied);
}

#[test]
fn the_link_carries_the_token_as_a_query_parameter() {
    let token = ConfirmationToken::generate();
    let link = confirmation_link("http://127.0.0.1:8000", &token);
    assert_eq!(
        link,
        format!("http://127.0.0.1:8000/subscriptions/confirm?subscription_token={}", token.as_ref())
    );
}

#[test]
fn both_bodies_of_the_message_point_to_the_link() {
    let token = ConfirmationToken::generate();
    let to = SubscriberEmail::parse("ursula_le_guin@gmail.com".to_string()).ok().expect("valid");
    let email = confirmation_email(to, "https://news.example", &token);
    let link = format!(
        "https://news.example/subscriptions/confirm?subscription_token={}",
        token.as_ref()
    );
    assert_eq!(email.to.as_ref(), "ursula_le_guin@gmail.com");
    assert_eq!(email.subject, "Welcome");
    assert_eq!(
        email.html_body,
        format!(
            "Welcome to our newsletter!<br />Click <a href=\"{}\">here</a> to confirm your subscription.",
            link
        )
    );
    assert_eq!(
        email.text_body,
        format!("Welcome to our newsletter!\nVisit {} to confirm your subscription.", link)
    );
}

#[test]
fn a_token_is_made_of_at_least_25_letters_and_digits_only() {
    let characters: Vec<char> = "abcdefghijKLMNOPQRST01234".chars().collect();
    assert_eq!(characters.len(), 25);
    let token = ConfirmationToken::from_characters(&characters).expect("a token");
    assert_eq!(token.as_ref(), "abcdefghijKLMNOPQRST01234");
    let longer: Vec<char> = "abcdefghijKLMNOPQRST012345".chars().collect();
    assert!(ConfirmationToken::from_characters(&longer).is_some());
    let shorter: Vec<char> = "abcdefghijKLMNOPQRST0123".chars().collect();
    assert!(ConfirmationToken::from_characters(&shorter).is_none());
    let marked: Vec<char> = "abcdefghijKLMNOPQRST0123-".chars().collect();
    assert!(ConfirmationToken::from_characters(&marked).is_none());
    assert!(ConfirmationToken::from_characters(&Vec::new()).is_none());
}
