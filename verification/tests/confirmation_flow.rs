use rust_newsletter::configuration::ApplicationBaseUrl;
use rust_newsletter::confirmation::{confirm, ConfirmError};
use rust_newsletter::email::RecordingMailer;
use rust_newsletter::storage::{Storage, SubscriberStatus};
use rust_newsletter::subscriptions::{subscribe, FormData};

fn registered_storage() -> Storage {
    let mut storage = Storage::new();
    let mut mailer = RecordingMailer::new();
    let form = FormData {
        email: "ursula_le_guin@gmail.com".to_string(),
        name: "le guin".to_string(),
    };
    let base = ApplicationBaseUrl("http://127.0.0.1:8000".to_string());
    subscribe(form, &mut storage, &mut mailer, &base).unwrap();
    storage
}

#[test]
fn confirming_an_unknown_token_fails_and_mutates_nothing() {
    let mut storage = registered_storage();
    let result = confirm("mtCmIl5Tguty3rWllbsaJdUa7", &mut storage);
    assert_eq!(result, Err(ConfirmError::UnknownToken));
    assert_eq!(result.unwrap_err().status_code(), 400);
    assert_eq!(storage.subscribers.len(), 1);
    assert_eq!(storage.subscribers[0].status, SubscriberStatus::PendingConfirmation);
    assert_eq!(storage.tokens.len(), 1);
}

#[test]
fn confirming_on_an_empty_store_fails() {
    let mut storage = Storage::new();
    assert_eq!(
        confirm("mtCmIl5Tguty3rWllbsaJdUa7", &mut storage),
        Err(ConfirmError::UnknownToken)
    );
    assert_eq!(storage.subscribers.len(), 0);
}

#[test]
fn confirming_the_emailed_token_marks_the_subscriber_confirmed() {
    let mut storage = registered_storage();
    let token = storage.tokens[0].token.clone();
    confirm(&token, &mut storage).unwrap();
    assert_eq!(storage.subscribers[0].status, SubscriberStatus::Confirmed);
    // The token row survives the confirmation.
    assert_eq!(storage.tokens.len(), 1);
}

#[test]
fn confirming_twice_succeeds_both_times_without_further_change() {
    let mut storage = registered_storage();
    let token = storage.tokens[0].token.clone();
    confirm(&token, &mut storage).unwrap();
    let snapshot: Vec<(u128, String, String, i64)> = storage
        .subscribers
        .iter()
        .map(|r| (r.id, r.email.clone(), r.name.clone(), r.subscribed_at_millis))
        .collect();
    // The second presentation of the same token also succeeds (idempotence).
    confirm(&token, &mut storage).unwrap();
    assert_eq!(storage.subscribers[0].status, SubscriberStatus::Confirmed);
    let after: Vec<(u128, String, String, i64)> = storage
        .subscribers
        .iter()
        .map(|r| (r.id, r.email.clone(), r.name.clone(), r.subscribed_at_millis))
        .collect();
    assert_eq!(snapshot, after);
    assert_eq!(storage.tokens.len(), 1);
}

#[test]
fn two_registrations_for_the_same_email_stay_independent() {
    let mut storage = registered_storage();
    let mut mailer = RecordingMailer::new();
    let form = FormData {
        email: "ursula_le_guin@gmail.com".to_string(),
        name: "le guin".to_string(),
    };
    let base = ApplicationBaseUrl("http://127.0.0.1:8000".to_string());
    subscribe(form, &mut storage, &mut mailer, &base).unwrap();
    // Re-registration is not de-duplicated: a second pair of rows appears.
    assert_eq!(storage.subscribers.len(), 2);
    assert_eq!(storage.tokens.len(), 2);
    // Confirming the second token confirms only the second subscriber.
    let token = storage.tokens[1].token.clone();
    confirm(&token, &mut storage).unwrap();
    assert_eq!(storage.subscribers[0].status, SubscriberStatus::PendingConfirmation);
    assert_eq!(storage.subscribers[1].status, SubscriberStatus::Confirmed);
}
