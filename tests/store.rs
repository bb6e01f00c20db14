use email_sender::store::{Status, StoreError, SubscriptionStore};

#[test]
fn rows_stay_invisible_until_commit() {
    let mut store = SubscriptionStore::new();
    let mut tx = store.begin_transaction();
    let id = store.insert_subscriber_with_id(&mut tx, 1, "a@example.com", "ann", 10).unwrap();
    let token = store.add_token(&mut tx, "tok".to_string(), id).unwrap();
    assert_eq!(token, "tok");
    assert_eq!(store.subscriber_count(), 0);
    assert_eq!(store.status_of(1), None);
    assert_eq!(store.commit(tx), Ok(()));
    assert_eq!(store.subscriber_count(), 1);
    assert_eq!(store.token_count(), 1);
    assert_eq!(store.resolve_subscriber_by_token("tok"), Ok(1));
}

#[test]
fn dropped_transaction_leaves_nothing() {
    let store = SubscriptionStore::new();
    {
        let mut tx = store.begin_transaction();
        let id = store.insert_pending_subscriber(&mut tx, "a@example.com", "ann", 0).unwrap();
        store.mint_token(&mut tx, id).unwrap();
    }
    assert_eq!(store.subscriber_count(), 0);
    assert_eq!(store.token_count(), 0);
}

#[test]
fn duplicate_subscriber_id_is_refused() {
    let store = SubscriptionStore::new();
    let mut tx = store.begin_transaction();
    assert_eq!(store.insert_subscriber_with_id(&mut tx, 5, "a@example.com", "ann", 0), Ok(5));
    assert_eq!(
        store.insert_subscriber_with_id(&mut tx, 5, "b@example.com", "ben", 0),
        Err(StoreError::DuplicateKey)
    );
}

#[test]
fn token_for_unknown_subscriber_is_a_constraint_failure() {
    let store = SubscriptionStore::new();
    let mut tx = store.begin_transaction();
    assert_eq!(store.add_token(&mut tx, "t".to_string(), 77), Err(StoreError::ConstraintFailure));
    assert_eq!(store.mint_token(&mut tx, 77), Err(StoreError::ConstraintFailure));
}

#[test]
fn duplicate_token_is_refused() {
    let store = SubscriptionStore::new();
    let mut tx = store.begin_transaction();
    store.insert_subscriber_with_id(&mut tx, 1, "a@example.com", "ann", 0).unwrap();
    store.add_token(&mut tx, "t".to_string(), 1).unwrap();
    assert_eq!(store.add_token(&mut tx, "t".to_string(), 1), Err(StoreError::DuplicateKey));
}

#[test]
fn mark_confirmed_is_idempotent_and_reports_unknown_ids() {
    let mut store = SubscriptionStore::new();
    let mut tx = store.begin_transaction();
    store.insert_subscriber_with_id(&mut tx, 3, "a@example.com", "ann", 0).unwrap();
    store.commit(tx).unwrap();
    assert_eq!(store.mark_confirmed(3), Ok(()));
    assert_eq!(store.mark_confirmed(3), Ok(()));
    assert_eq!(store.status_of(3), Some(Status::Confirmed));
    assert_eq!(store.mark_confirmed(4), Err(StoreError::NotFound));
}

#[test]
fn unknown_token_is_not_found() {
    let store = SubscriptionStore::new();
    assert_eq!(store.resolve_subscriber_by_token("nope"), Err(StoreError::NotFound));
}

#[test]
fn every_token_refers_to_a_subscriber() {
    let mut store = SubscriptionStore::new();
    let mut tx = store.begin_transaction();
    store.insert_subscriber_with_id(&mut tx, 1, "a@example.com", "ann", 0).unwrap();
    store.add_token(&mut tx, "t1".to_string(), 1).unwrap();
    store.commit(tx).unwrap();
    let id = store.resolve_subscriber_by_token("t1").unwrap();
    assert!(store.status_of(id).is_some());
    assert_eq!(store.token_for(2), None);
}
