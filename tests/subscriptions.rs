use email_sender::handlers::subscription::{
    confirmation_email, confirmation_link, finish_subscription, subscribe, subscribe_with_keys,
    PendingRegistration,
    SubscriberInfo, SubscriptionError,
};
use email_sender::store::{Status, StoreError, SubscriptionStore};
use email_sender::validation::{Field, Reason, ValidationFailure};

fn info(email: &str, username: &str) -> SubscriberInfo {
    SubscriberInfo { email: email.to_string(), username: username.to_string() }
}

fn status_of_result(r: &Result<u128, SubscriptionError>) -> u16 {
    match r {
        Ok(_) => 200,
        Err(e) => e.status_code(),
    }
}

#[test]
fn subscribe_returns_200_with_valid_data() {
    let mut store = SubscriptionStore::new();
    let pending = subscribe(&store, &info("username@example.com", "username"), "127.0.0.1", 0)
        .expect("valid data is staged");
    let r = finish_subscription(&mut store, pending, true);
    assert_eq!(status_of_result(&r), 200);
    let id = r.unwrap();
    assert_eq!(store.subscriber_count(), 1);
    assert_eq!(store.status_of(id), Some(Status::Pending));
    let saved = store.find_subscriber(id).expect("Failed to fetch saved subscription.");
    assert_eq!(saved.email, "username@example.com");
    assert_eq!(saved.name, "username");
}

#[test]
fn subscribe_returns_400_with_invalid_individual_data() {
    let store = SubscriptionStore::new();
    let cases = [
        ("testdataexample.com", "username", "need valid email"),
        ("testdata@example.com", "user__", "invalid username"),
        ("hello", "おかひょう", "missing form information"),
    ];
    for (email, username, what) in cases {
        let r = subscribe(&store, &info(email, username), "127.0.0.1", 0);
        match r {
            Err(e) => assert_eq!(e.status_code(), 400, "status is not 400 for {what}"),
            Ok(_) => panic!("accepted invalid data: {what}"),
        }
    }
}

#[test]
fn subscribe_sends_a_confirmation_email() {
    let store = SubscriptionStore::new();
    let pending = subscribe(&store, &info("username@example.com", "username"), "127.0.0.1", 0)
        .expect("valid data is staged");
    let link = format!("http://127.0.0.1/subscription/confirm?token={}", pending.token);
    assert_eq!(pending.message.recipient, "username@example.com");
    assert_eq!(pending.message.subject, "Welcome!");
    assert!(pending.message.text_body.contains(&link));
    assert!(pending.message.html_body.contains(&link));
}

#[test]
fn scenario_register_with_delivery_success() {
    let mut store = SubscriptionStore::new();
    let pending = subscribe(&store, &info("user@example.com", "username"), "localhost", 5).unwrap();
    let r = finish_subscription(&mut store, pending, true);
    assert_eq!(status_of_result(&r), 200);
    assert_eq!(store.subscriber_count(), 1);
    assert_eq!(store.token_count(), 1);
    assert_eq!(store.status_of(r.unwrap()), Some(Status::Pending));
}

#[test]
fn scenario_register_with_delivery_failure() {
    let mut store = SubscriptionStore::new();
    let pending = subscribe(&store, &info("user@example.com", "username"), "localhost", 5).unwrap();
    let id = pending.subscriber_id;
    let r = finish_subscription(&mut store, pending, false);
    assert_eq!(r, Err(SubscriptionError::DeliveryError));
    assert_eq!(status_of_result(&r), 500);
    assert_eq!(store.subscriber_count(), 0);
    assert_eq!(store.token_count(), 0);
    assert_eq!(store.status_of(id), None);
}

#[test]
fn scenario_register_invalid_email() {
    let store = SubscriptionStore::new();
    let r = subscribe(&store, &info("not-an-email", "username"), "localhost", 5);
    match r {
        Err(e) => {
            assert_eq!(
                e,
                SubscriptionError::ValidationError(ValidationFailure {
                    field: Field::Email,
                    reason: Reason::MissingAt
                })
            );
            assert_eq!(e.status_code(), 400);
        }
        Ok(_) => panic!("accepted an invalid email"),
    }
    assert_eq!(store.subscriber_count(), 0);
    assert_eq!(store.token_count(), 0);
}

#[test]
fn scenario_register_username_with_punctuation() {
    let store = SubscriptionStore::new();
    match subscribe(&store, &info("a@b.com", "user__"), "localhost", 5) {
        Err(e) => {
            assert_eq!(
                e,
                SubscriptionError::ValidationError(ValidationFailure {
                    field: Field::Username,
                    reason: Reason::NotAlphanumeric
                })
            );
            assert_eq!(e.status_code(), 400);
        }
        Ok(_) => panic!("accepted an invalid username"),
    }
}

#[test]
fn subscribe_with_keys_stages_the_given_keys() {
    let store = SubscriptionStore::new();
    let p = subscribe_with_keys(&store, &info("user@example.com", "bob"), "h", 7, 42, "tok".to_string())
        .unwrap();
    assert_eq!(p.subscriber_id, 42);
    assert_eq!(p.token, "tok");
    assert_eq!(p.message.text_body, "Welcome to our newsletter!\nVisit http://h/subscription/confirm?token=tok to confirm your subscription.");
    assert_eq!(p.message.html_body, "Welcome to our newsletter!<br />Click <a href=\"http://h/subscription/confirm?token=tok\">here</a> to confirm your subscription.");
}

#[test]
fn subscribe_with_taken_id_is_a_persistence_error() {
    let mut store = SubscriptionStore::new();
    let p = subscribe_with_keys(&store, &info("user@example.com", "bob"), "h", 7, 42, "tok".to_string())
        .unwrap();
    assert_eq!(finish_subscription(&mut store, p, true), Ok(42));
    let again = subscribe_with_keys(&store, &info("user@example.com", "bob"), "h", 7, 42, "other".to_string());
    assert!(matches!(again, Err(SubscriptionError::PersistenceError(StoreError::DuplicateKey))));
    let same_token = subscribe_with_keys(&store, &info("user@example.com", "bob"), "h", 7, 43, "tok".to_string());
    match same_token {
        Err(e) => {
            assert_eq!(e, SubscriptionError::PersistenceError(StoreError::DuplicateKey));
            assert_eq!(e.status_code(), 500);
        }
        Ok(_) => panic!("a taken token was staged"),
    }
}

#[test]
fn commit_refuses_rows_taken_meanwhile() {
    let mut store = SubscriptionStore::new();
    let first = subscribe_with_keys(&store, &info("a@example.com", "ann"), "h", 1, 9, "t1".to_string()).unwrap();
    let second = subscribe_with_keys(&store, &info("b@example.com", "ben"), "h", 2, 9, "t2".to_string()).unwrap();
    assert_eq!(finish_subscription(&mut store, first, true), Ok(9));
    assert_eq!(
        finish_subscription(&mut store, second, true),
        Err(SubscriptionError::PersistenceError(StoreError::ConstraintFailure))
    );
    assert_eq!(store.subscriber_count(), 1);
    assert_eq!(store.token_count(), 1);
}

#[test]
fn duplicate_emails_register_twice() {
    let mut store = SubscriptionStore::new();
    for _ in 0..2 {
        let p = subscribe(&store, &info("same@example.com", "same"), "h", 0).unwrap();
        assert!(finish_subscription(&mut store, p, true).is_ok());
    }
    assert_eq!(store.subscriber_count(), 2);
    assert_eq!(store.token_count(), 2);
}

#[test]
fn confirmation_link_has_the_token() {
    assert_eq!(
        confirmation_link("example.org:8000", "abc"),
        "http://example.org:8000/subscription/confirm?token=abc"
    );
    let m = confirmation_email("x@y.z", "host", "t");
    assert_eq!(m.recipient, "x@y.z");
    assert_eq!(m.subject, "Welcome!");
}

#[test]
fn generated_token_is_a_hyphenated_uuid() {
    let store = SubscriptionStore::new();
    let p = subscribe(&store, &info("user@example.com", "username"), "h", 0).unwrap();
    assert_eq!(p.token.len(), 36);
    for (i, c) in p.token.chars().enumerate() {
        if i == 8 || i == 13 || i == 18 || i == 23 {
            assert_eq!(c, '-');
        } else {
            assert!(c.is_ascii_digit() || ('a'..='f').contains(&c), "{c} at {i}");
        }
    }
}

#[test]
fn finishing_an_unstaged_registration_is_refused() {
    let mut store = SubscriptionStore::new();
    let pending = PendingRegistration {
        subscriber_id: 1,
        token: "t".to_string(),
        message: confirmation_email("a@example.com", "h", "t"),
        transaction: store.begin_transaction(),
    };
    assert_eq!(
        finish_subscription(&mut store, pending, true),
        Err(SubscriptionError::PersistenceError(StoreError::ConstraintFailure))
    );
    assert_eq!(store.subscriber_count(), 0);
}
