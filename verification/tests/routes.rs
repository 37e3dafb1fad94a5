use zero2prod::domain::NewSubscriber;
use zero2prod::routes::subscriptions::SubscriptionIds;
use zero2prod::routes::{healthz, subscribe, subscription_stored, ResponseStatus, SubscribeForm, SubscribeStep};

fn form(name: &str, email: &str) -> SubscribeForm {
    SubscribeForm { name: name.to_string(), email: email.to_string() }
}

#[test]
fn healthz_answers_ok() {
    let status = healthz();
    assert_eq!(status, ResponseStatus::Success);
    assert_eq!(status.code(), 200);
}

#[test]
fn status_codes() {
    assert_eq!(ResponseStatus::Success.code(), 200);
    assert_eq!(ResponseStatus::BadRequest.code(), 400);
    assert_eq!(ResponseStatus::InternalServerError.code(), 500);
}

#[test]
fn valid_form_is_stored() {
    match subscribe(form("vla", "vla@example.com")) {
        SubscribeStep::Store(s) => {
            assert_eq!(s.name.as_ref(), "vla");
            assert_eq!(s.email.as_ref(), "vla@example.com");
        }
        SubscribeStep::Respond(_) => panic!("a valid form must be stored"),
    }
}

#[test]
fn invalid_forms_get_bad_request() {
    let cases = vec![
        ("Empty email", form("vla", "")),
        ("Empty name", form("", "vla@example.com")),
        ("Invalid email", form("vla", "vla-example.com")),
        ("Empty both", form("", "")),
    ];
    for (case, f) in cases {
        match subscribe(f) {
            SubscribeStep::Respond(status) => {
                assert_eq!(status, ResponseStatus::BadRequest, "case {}", case);
                assert_eq!(status.code(), 400, "case {}", case);
            }
            SubscribeStep::Store(_) => panic!("case {} must be refused", case),
        }
    }
}

#[test]
fn new_subscriber_reports_email_before_name() {
    assert_eq!(
        NewSubscriber::try_from(form("", "")).err(),
        Some(" is not a valid subscriber email.".to_string())
    );
    assert_eq!(
        NewSubscriber::try_from(form("a/b", "vla@example.com")).err(),
        Some("a/b is not a valid subscriber name.".to_string())
    );
}

#[test]
fn store_outcome_decides_the_answer() {
    assert_eq!(subscription_stored(true), ResponseStatus::Success);
    assert_eq!(subscription_stored(true).code(), 200);
    assert_eq!(subscription_stored(false), ResponseStatus::InternalServerError);
    assert_eq!(subscription_stored(false).code(), 500);
}

#[test]
fn record_keeps_fields_and_gets_a_v7_identifier() {
    let subscriber = NewSubscriber::try_from(form("vla", "vla@example.com")).ok().unwrap();
    let mut ids = SubscriptionIds::new();
    let first = subscriber.record(&mut ids).unwrap_or_else(|| panic!("identifier held back"));
    let second = subscriber.record(&mut ids).unwrap_or_else(|| panic!("identifier held back"));
    assert_eq!(first.email, "vla@example.com");
    assert_eq!(first.name, "vla");
    let id = uuid::Uuid::from_u128(first.subscription_id);
    assert_eq!(id.get_version_num(), 7);
    assert_eq!(id.get_variant(), uuid::Variant::RFC4122);
    assert_eq!((first.subscription_id >> 76) & 0xf, 7);
    assert_eq!((first.subscription_id >> 62) & 0x3, 2);
    assert!(first.subscription_id < second.subscription_id);
    let mut ids = SubscriptionIds::new();
    let mut last = 0u128;
    for _ in 0..1000 {
        let id = ids.next_id().unwrap();
        assert!(last < id);
        assert_eq!(uuid::Uuid::from_u128(id).get_version_num(), 7);
        last = id;
    }
}

#[test]
fn new_subscriber_through_try_into() {
    let parsed: Result<NewSubscriber, String> = form("vla", "vla@example.com").try_into();
    let s = parsed.ok().unwrap();
    assert_eq!(s.email.as_ref(), "vla@example.com");
    let refused: Result<NewSubscriber, String> = form("vla", "vla-example.com").try_into();
    assert_eq!(refused.err(), Some("vla-example.com is not a valid subscriber email.".to_string()));
}

#[test]
fn issue_hands_out_only_greater_identifiers() {
    let mut ids = SubscriptionIds::new();
    assert_eq!(ids.issue(5), Some(5));
    assert_eq!(ids.issue(5), None);
    assert_eq!(ids.issue(3), None);
    assert_eq!(ids.issue(9), Some(9));
    assert_eq!(ids.issue(0), None);
}

#[test]
fn fresh_source_always_issues() {
    for _ in 0..100 {
        let mut ids = SubscriptionIds::new();
        assert!(ids.next_id().is_some());
        let subscriber = NewSubscriber::try_from(form("vla", "vla@example.com")).ok().unwrap();
        let mut ids = SubscriptionIds::new();
        assert!(subscriber.record(&mut ids).is_some());
    }
}
