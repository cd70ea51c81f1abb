use rust_newsletter::configuration::ApplicationBaseUrl;
use rust_newsletter::email::RecordingMailer;
use rust_newsletter::storage::{Storage, StorageFault, SubscriberStatus};
use rust_newsletter::subscriptions::{subscribe, FormData, SubscribeError};

fn base_url() -> ApplicationBaseUrl {
    ApplicationBaseUrl("http://127.0.0.1:8000".to_string())
}

fn valid_form() -> FormData {
    FormData {
        email: "ursula_le_guin@gmail.com".to_string(),
        name: "le guin".to_string(),
    }
}

fn status_of(result: &Result<(), SubscribeError>) -> u16 {
    match result {
        Ok(()) => 200,
        Err(e) => e.status_code(),
    }
}

#[test]
fn subscribe_returns_a_200_for_valid_form_data() {
    let mut storage = Storage::new();
    let mut mailer = RecordingMailer::new();
    let result = subscribe(valid_form(), &mut storage, &mut mailer, &base_url());
    assert_eq!(status_of(&result), 200);
    // The HTML and the plain-text body carry the same confirmation link.
    let token = &storage.tokens[0].token;
    let link = format!(
        "http://127.0.0.1:8000/subscriptions/confirm?subscription_token={}",
        token
    );
    assert!(mailer.emails[0].html.contains(&link));
    assert!(mailer.emails[0].text.contains(&link));
}

#[test]
fn subscribe_persists_the_new_subscriber() {
    let mut storage = Storage::new();
    let mut mailer = RecordingMailer::new();
    let result = subscribe(valid_form(), &mut storage, &mut mailer, &base_url());
    assert_eq!(status_of(&result), 200);
    assert_eq!(storage.subscribers.len(), 1);
    let saved = &storage.subscribers[0];
    assert_eq!(saved.email, "ursula_le_guin@gmail.com");
    assert_eq!(saved.name, "le guin");
    assert_eq!(saved.status, SubscriberStatus::PendingConfirmation);
}

#[test]
fn subscribe_creates_the_token_row_with_the_subscriber() {
    let mut storage = Storage::new();
    let mut mailer = RecordingMailer::new();
    subscribe(valid_form(), &mut storage, &mut mailer, &base_url()).unwrap();
    assert_eq!(storage.subscribers.len(), 1);
    assert_eq!(storage.tokens.len(), 1);
    assert_eq!(storage.tokens[0].subscriber_id, storage.subscribers[0].id);
    let token = &storage.tokens[0].token;
    assert_eq!(token.len(), 25);
    assert!(token.chars().all(|c| c.is_ascii_alphanumeric()));
}

#[test]
fn subscribe_returns_a_400_when_fields_are_present_but_invalid() {
    let cases = [
        ("", "ursula_le_guin@gmail.com", "empty name"),
        ("Ursula", "", "empty email"),
        ("Ursula", "definitely-not-an-email", "invalid email"),
    ];
    for (name, email, description) in cases {
        let mut storage = Storage::new();
        let mut mailer = RecordingMailer::new();
        let form = FormData {
            email: email.to_string(),
            name: name.to_string(),
        };
        let result = subscribe(form, &mut storage, &mut mailer, &base_url());
        assert_eq!(
            status_of(&result),
            400,
            "did not return 400 Bad Request for {}",
            description
        );
        assert_eq!(storage.subscribers.len(), 0, "row created for {}", description);
        assert_eq!(storage.tokens.len(), 0);
        assert_eq!(mailer.emails.len(), 0);
    }
}

#[test]
fn subscribe_sends_a_confirmation_email_for_valid_data() {
    let mut storage = Storage::new();
    let mut mailer = RecordingMailer::new();
    subscribe(valid_form(), &mut storage, &mut mailer, &base_url()).unwrap();
    assert_eq!(mailer.emails.len(), 1);
    let email = &mailer.emails[0];
    assert_eq!(email.recipient, "ursula_le_guin@gmail.com");
    assert_eq!(email.subject, "welcome title");
    assert!(email.html.contains("/subscriptions/confirm?subscription_token="));
    assert!(email.text.contains("/subscriptions/confirm?subscription_token="));
}

#[test]
fn subscribe_fails_if_there_is_a_fatal_database_error() {
    // The backing store refuses the token insert, as if the column were gone.
    for fault in [
        StorageFault::SubscriberInsert,
        StorageFault::TokenInsert,
        StorageFault::Commit,
    ] {
        let mut storage = Storage::new();
        storage.fault = Some(fault);
        let mut mailer = RecordingMailer::new();
        let result = subscribe(valid_form(), &mut storage, &mut mailer, &base_url());
        assert_eq!(status_of(&result), 500);
        // Atomicity: no partial write is observable, and no email went out.
        assert_eq!(storage.subscribers.len(), 0);
        assert_eq!(storage.tokens.len(), 0);
        assert_eq!(mailer.emails.len(), 0);
    }
}

#[test]
fn storage_error_messages_name_the_failing_statement() {
    let mut storage = Storage::new();
    storage.fault = Some(StorageFault::TokenInsert);
    let mut mailer = RecordingMailer::new();
    let result = subscribe(valid_form(), &mut storage, &mut mailer, &base_url());
    match result {
        Err(SubscribeError::UnexpectedError(m)) => {
            assert_eq!(
                m,
                "Failed to store the confirmation token for a new subscriber."
            );
        }
        other => panic!("expected an unexpected-error result, got {:?}", other),
    }
}

#[test]
fn email_failure_keeps_the_committed_subscription() {
    let mut storage = Storage::new();
    let mut mailer = RecordingMailer::new();
    mailer.fail_sends = true;
    let result = subscribe(valid_form(), &mut storage, &mut mailer, &base_url());
    assert_eq!(status_of(&result), 500);
    // The write is durable even though the notification failed.
    assert_eq!(storage.subscribers.len(), 1);
    assert_eq!(storage.tokens.len(), 1);
    assert_eq!(mailer.emails.len(), 0);
    match result {
        Err(SubscribeError::UnexpectedError(m)) => {
            assert_eq!(m, "Failed to send a confirmation email.");
        }
        other => panic!("expected an unexpected-error result, got {:?}", other),
    }
}

#[test]
fn validation_error_carries_the_parse_message() {
    let mut storage = Storage::new();
    let mut mailer = RecordingMailer::new();
    let form = FormData {
        email: "nope".to_string(),
        name: "le guin".to_string(),
    };
    let result = subscribe(form, &mut storage, &mut mailer, &base_url());
    match result {
        Err(e @ SubscribeError::ValidationError(_)) => {
            assert_eq!(e.message(), "nope is not a valid subscriber email.");
        }
        other => panic!("expected a validation error, got {:?}", other),
    }
}
