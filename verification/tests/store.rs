use newsletter::store::insert_record;
use newsletter::store::insert_subscriber;
use newsletter::store::PersistenceError;
use newsletter::store::SubscriptionStore;
use newsletter::subscriptions::parse_subscribe;
use newsletter::subscriptions::FormData;

fn subscriber() -> newsletter::domain::NewSubscriber {
    parse_subscribe(FormData {
        email: "ursula@example.com".to_string(),
        name: "Le Guin".to_string(),
    })
    .unwrap()
}

#[test]
fn inserting_a_subscriber_appends_exactly_one_record() {
    let mut store = SubscriptionStore::new();
    let before = chrono::Utc::now().timestamp_millis();
    assert!(insert_subscriber(&mut store, &subscriber()).is_ok());
    let after = chrono::Utc::now().timestamp_millis();
    assert_eq!(store.record_count(), 1);
    let record = store.record_at(0);
    assert_eq!(record.email, "ursula@example.com");
    assert_eq!(record.name, "Le Guin");
    assert!(before <= record.subscribed_at && record.subscribed_at <= after);
}

#[test]
fn two_inserts_of_the_same_subscriber_create_two_distinct_records() {
    let mut store = SubscriptionStore::new();
    assert!(insert_subscriber(&mut store, &subscriber()).is_ok());
    assert!(insert_subscriber(&mut store, &subscriber()).is_ok());
    assert_eq!(store.record_count(), 2);
    assert_ne!(store.record_at(0).id, store.record_at(1).id);
}

#[test]
fn an_unreachable_store_rejects_the_write_and_keeps_no_record() {
    let mut store = SubscriptionStore::new();
    store.set_reachable(false);
    let result = insert_subscriber(&mut store, &subscriber());
    assert_eq!(result, Err(PersistenceError::StoreUnreachable));
    assert_eq!(store.record_count(), 0);
}

#[test]
fn a_taken_identity_is_rejected_not_deduplicated() {
    let mut store = SubscriptionStore::new();
    assert!(insert_record(&mut store, &subscriber(), 7, 1000).is_ok());
    let result = insert_record(&mut store, &subscriber(), 7, 2000);
    assert_eq!(result, Err(PersistenceError::DuplicateId));
    assert_eq!(store.record_count(), 1);
}

#[test]
fn a_store_made_reachable_again_accepts_writes() {
    let mut store = SubscriptionStore::new();
    store.set_reachable(false);
    assert!(insert_subscriber(&mut store, &subscriber()).is_err());
    store.set_reachable(true);
    assert!(insert_subscriber(&mut store, &subscriber()).is_ok());
    assert_eq!(store.record_count(), 1);
}
