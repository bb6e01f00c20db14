use email_sender::handlers::confirm_subscription::{confirm, ConfirmationError, Parameters};
use email_sender::handlers::subscription::{finish_subscription, subscribe, SubscriberInfo};
use email_sender::store::{Status, SubscriptionStore};

fn registered(store: &mut SubscriptionStore) -> (u128, String) {
    let info = SubscriberInfo { email: "username@example.com".to_string(), username: "username".to_string() };
    let pending = subscribe(store, &info, "127.0.0.1", 0).unwrap();
    let token = pending.token.clone();
    let id = finish_subscription(store, pending, true).unwrap();
    (id, token)
}

fn answer(r: &Result<(), ConfirmationError>) -> u16 {
    match r {
        Ok(()) => 200,
        Err(e) => e.status_code(),
    }
}

#[test]
fn confirmation_without_token_are_rejected_with_a_400() {
    let mut store = SubscriptionStore::new();
    let r = confirm(&mut store, &Parameters { token: String::new() });
    assert_eq!(answer(&r), 400);
}

#[test]
fn valid_confirmation_process() {
    let mut store = SubscriptionStore::new();
    let (id, token) = registered(&mut store);
    assert_eq!(store.token_for(id), Some(token.clone()));
    let r = confirm(&mut store, &Parameters { token });
    assert_eq!(answer(&r), 200);
    assert_eq!(store.status_of(id), Some(Status::Confirmed));
}

#[test]
fn the_link_returned_by_subscribe_returns_a_200_if_called() {
    let mut store = SubscriptionStore::new();
    let info = SubscriberInfo { email: "username@example.com".to_string(), username: "username".to_string() };
    let pending = subscribe(&store, &info, "127.0.0.1", 0).unwrap();
    let text = pending.message.text_body.clone();
    finish_subscription(&mut store, pending, true).unwrap();
    let start = text.find("token=").unwrap() + "token=".len();
    let token: String = text[start..].split_whitespace().next().unwrap().to_string();
    let r = confirm(&mut store, &Parameters { token });
    assert_eq!(answer(&r), 200);
}

#[test]
fn scenario_confirm_unknown_token() {
    let mut store = SubscriptionStore::new();
    registered(&mut store);
    let r = confirm(&mut store, &Parameters { token: "unknown-token-xyz".to_string() });
    assert_eq!(r, Err(ConfirmationError::UnknownToken));
    assert_eq!(answer(&r), 400);
}

#[test]
fn confirm_twice_is_ok_both_times() {
    let mut store = SubscriptionStore::new();
    let (id, token) = registered(&mut store);
    assert_eq!(confirm(&mut store, &Parameters { token: token.clone() }), Ok(()));
    assert_eq!(store.status_of(id), Some(Status::Confirmed));
    assert_eq!(confirm(&mut store, &Parameters { token }), Ok(()));
    assert_eq!(store.status_of(id), Some(Status::Confirmed));
}

#[test]
fn confirmed_status_survives_later_registrations() {
    let mut store = SubscriptionStore::new();
    let (id, token) = registered(&mut store);
    confirm(&mut store, &Parameters { token }).unwrap();
    let (other, _) = registered(&mut store);
    assert_eq!(store.status_of(id), Some(Status::Confirmed));
    assert_eq!(store.status_of(other), Some(Status::Pending));
}

#[test]
fn confirm_touches_only_its_subscriber() {
    let mut store = SubscriptionStore::new();
    let (a, ta) = registered(&mut store);
    let (b, _) = registered(&mut store);
    confirm(&mut store, &Parameters { token: ta }).unwrap();
    assert_eq!(store.status_of(a), Some(Status::Confirmed));
    assert_eq!(store.status_of(b), Some(Status::Pending));
}
