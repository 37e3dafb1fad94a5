use zero2prod::domain::{Email, SubscriberName};

fn name_ok(s: &str) -> bool {
    SubscriberName::parse(s.to_string()).is_ok()
}

fn email_ok(s: &str) -> bool {
    Email::parse(s.to_string()).is_ok()
}

#[test]
fn plain_name_is_accepted_unchanged() {
    let name = SubscriberName::parse("vla".to_string()).ok().unwrap();
    assert_eq!(name.as_ref(), "vla");
    let name = SubscriberName::parse("Ursula Le Guin".to_string()).ok().unwrap();
    assert_eq!(name.as_ref(), "Ursula Le Guin");
}

#[test]
fn empty_name_is_refused() {
    assert_eq!(
        SubscriberName::parse(String::new()).err(),
        Some(" is not a valid subscriber name.".to_string())
    );
}

#[test]
fn whitespace_only_name_is_refused() {
    assert!(!name_ok(" "));
    assert!(!name_ok("\t\n "));
    assert!(!name_ok("\u{3000}\u{a0}"));
    assert!(name_ok(" a "));
}

#[test]
fn name_length_limit() {
    assert!(name_ok(&"a".repeat(256)));
    assert!(!name_ok(&"a".repeat(257)));
    assert!(name_ok(&"ё".repeat(256)));
}

#[test]
fn names_with_forbidden_characters_are_refused() {
    for c in ['/', '(', ')', '"', '<', '>', '\\', '{', '}'] {
        let s = format!("vla{}", c);
        assert_eq!(
            SubscriberName::parse(s.clone()).err(),
            Some(format!("{} is not a valid subscriber name.", s))
        );
    }
}

#[test]
fn plain_email_is_accepted_unchanged() {
    let email = Email::parse("vla@example.com".to_string()).ok().unwrap();
    assert_eq!(email.as_ref(), "vla@example.com");
    assert!(email_ok("a@b"));
}

#[test]
fn empty_email_is_refused() {
    assert_eq!(
        Email::parse(String::new()).err(),
        Some(" is not a valid subscriber email.".to_string())
    );
}

#[test]
fn email_without_at_is_refused() {
    assert_eq!(
        Email::parse("vla-example.com".to_string()).err(),
        Some("vla-example.com is not a valid subscriber email.".to_string())
    );
}

#[test]
fn email_needs_text_around_a_single_at() {
    assert!(!email_ok("@example.com"));
    assert!(!email_ok("vla@"));
    assert!(!email_ok("@"));
    assert!(!email_ok("a@b@c"));
    assert!(!email_ok("vla@@example.com"));
}
