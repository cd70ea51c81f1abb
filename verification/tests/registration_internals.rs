use rust_newsletter::domain::{SubscriberEmail, SubscriberName};
use rust_newsletter::email::RecordingMailer;
use rust_newsletter::storage::{Storage, StorageFault, SubscriberStatus};
use rust_newsletter::subscriptions::{
    insert_subscriber, parse_subscriber, register, send_confirmation_email, store_token, FormData,
    RegistrationError,
};
use rust_newsletter::domain::NewSubscriber;

fn new_subscriber() -> NewSubscriber {
    NewSubscriber {
        email: SubscriberEmail::parse("thomas_mann@hotmail.com".to_string()).unwrap(),
        name: SubscriberName::parse("Tom".to_string()).unwrap(),
    }
}

#[test]
fn parse_subscriber_builds_from_valid_fields() {
    let form = FormData {
        email: "thomas_mann@hotmail.com".to_string(),
        name: "Tom".to_string(),
    };
    let ns = parse_subscriber(form).unwrap();
    assert_eq!(ns.email.as_ref(), "thomas_mann@hotmail.com");
    assert_eq!(ns.name.as_ref(), "Tom");
}

#[test]
fn parse_subscriber_reports_the_first_invalid_field() {
    let form = FormData {
        email: "thomas_mann@hotmail.com".to_string(),
        name: "/etc".to_string(),
    };
    assert_eq!(
        parse_subscriber(form).unwrap_err(),
        "/etc is not a valid subscriber name."
    );
}

#[test]
fn register_adds_one_matching_row_pair_and_one_email() {
    let mut storage = Storage::new();
    let mut mailer = RecordingMailer::new();
    register(new_subscriber(), &mut storage, &mut mailer, "https://news.example").unwrap();
    assert_eq!(storage.subscribers.len(), 1);
    assert_eq!(storage.tokens.len(), 1);
    assert_eq!(storage.subscribers[0].status, SubscriberStatus::PendingConfirmation);
    assert_eq!(storage.tokens[0].subscriber_id, storage.subscribers[0].id);
    assert_eq!(mailer.emails.len(), 1);
}

#[test]
fn register_surfaces_the_failing_statement() {
    let mut storage = Storage::new();
    storage.fault = Some(StorageFault::Commit);
    let mut mailer = RecordingMailer::new();
    let err = register(new_subscriber(), &mut storage, &mut mailer, "https://news.example")
        .unwrap_err();
    assert!(matches!(err, RegistrationError::Storage(_)));
    assert_eq!(storage.subscribers.len(), 0);
    assert_eq!(storage.tokens.len(), 0);
}

#[test]
fn staged_inserts_are_invisible_until_commit() {
    let mut storage = Storage::new();
    let mut transaction = storage.begin();
    let id = insert_subscriber(&mut transaction, &new_subscriber()).unwrap();
    store_token(&mut transaction, id, "mtCmIl5Tguty3rWllbsaJdUa7").unwrap();
    // Nothing is observable before the commit.
    assert_eq!(storage.subscribers.len(), 0);
    assert_eq!(storage.tokens.len(), 0);
    storage.commit(transaction).unwrap();
    assert_eq!(storage.subscribers.len(), 1);
    assert_eq!(storage.tokens.len(), 1);
    assert_eq!(storage.tokens[0].token, "mtCmIl5Tguty3rWllbsaJdUa7");
    assert_eq!(storage.tokens[0].subscriber_id, id);
}

#[test]
fn dropping_a_transaction_rolls_it_back() {
    let storage = Storage::new();
    let mut transaction = storage.begin();
    insert_subscriber(&mut transaction, &new_subscriber()).unwrap();
    drop(transaction);
    assert_eq!(storage.subscribers.len(), 0);
}

#[test]
fn confirmation_email_bodies_are_exactly_the_expected_text() {
    let mut mailer = RecordingMailer::new();
    send_confirmation_email(
        &mut mailer,
        &new_subscriber(),
        "https://news.example",
        "mtCmIl5Tguty3rWllbsaJdUa7",
    )
    .unwrap();
    let link = "https://news.example/subscriptions/confirm?subscription_token=mtCmIl5Tguty3rWllbsaJdUa7";
    let email = &mailer.emails[0];
    assert_eq!(email.recipient, "thomas_mann@hotmail.com");
    assert_eq!(email.subject, "welcome title");
    assert_eq!(
        email.text,
        format!(
            "Welcome to our newsletter!\nVisit {} to confirm your subscription.",
            link
        )
    );
    assert_eq!(
        email.html,
        format!(
            "Welcome to our newsletter!<br />Click <a href=\"{}\">here</a> to confirm your subscription.",
            link
        )
    );
}

#[test]
fn a_failing_mailer_reports_email_delivery_failure() {
    let mut storage = Storage::new();
    let mut mailer = RecordingMailer::new();
    mailer.fail_sends = true;
    let err = register(new_subscriber(), &mut storage, &mut mailer, "https://news.example")
        .unwrap_err();
    assert!(matches!(err, RegistrationError::EmailDeliveryFailed(_)));
    // The committed rows survive the mail failure.
    assert_eq!(storage.subscribers.len(), 1);
    assert_eq!(storage.tokens.len(), 1);
}
