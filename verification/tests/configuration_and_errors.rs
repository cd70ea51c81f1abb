use rust_newsletter::configuration::{ApplicationBaseUrl, ApplicationSettings, Environment};
use rust_newsletter::secret::SecretString;
use rust_newsletter::storage::StorageError;
use rust_newsletter::subscriptions::error_chain_fmt;

#[test]
fn environment_names_round_trip() {
    assert_eq!(Environment::Local.as_str(), "local");
    assert_eq!(Environment::Production.as_str(), "production");
    assert!(matches!(
        Environment::try_from("local".to_string()),
        Ok(Environment::Local)
    ));
    assert!(matches!(
        Environment::try_from("Production".to_string()),
        Ok(Environment::Production)
    ));
    assert!(matches!(
        Environment::try_from("LOCAL".to_string()),
        Ok(Environment::Local)
    ));
}

#[test]
fn unknown_environment_is_rejected_with_its_name() {
    let err = Environment::try_from("Staging".to_string()).unwrap_err();
    assert_eq!(err, "staging is not a supported environment");
}

#[test]
fn application_settings_hold_plain_values() {
    let settings = ApplicationSettings {
        port: 8000,
        host: "127.0.0.1".to_string(),
    };
    assert_eq!(settings.port, 8000);
    assert_eq!(settings.host, "127.0.0.1");
    let base = ApplicationBaseUrl(format!("http://{}:{}", settings.host, settings.port));
    assert_eq!(base.0, "http://127.0.0.1:8000");
}

#[test]
fn secret_strings_render_as_a_placeholder() {
    let secret = SecretString::new("hunter2".to_string());
    assert_eq!(secret.redacted(), "[REDACTED]");
}

#[test]
fn error_chain_fmt_lists_causes_outermost_first() {
    let causes = vec![
        "Failed to store the confirmation token for a new subscriber.".to_string(),
        "connection reset".to_string(),
    ];
    let rendered = error_chain_fmt("Something went wrong", &causes);
    assert_eq!(
        rendered,
        "Something went wrong\n\n\
         Caused by:\n\tFailed to store the confirmation token for a new subscriber.\n\
         Caused by:\n\tconnection reset\n"
    );
}

#[test]
fn error_chain_fmt_without_causes_is_just_the_message() {
    let rendered = error_chain_fmt("Authentication failed", &Vec::new());
    assert_eq!(rendered, "Authentication failed\n\n");
}

#[test]
fn storage_error_descriptions_name_each_statement() {
    assert_eq!(
        StorageError::SubscriberInsertFailed.description(),
        "Failed to insert new subscriber in the database."
    );
    assert_eq!(
        StorageError::TokenInsertFailed.description(),
        "Failed to store the confirmation token for a new subscriber."
    );
    assert_eq!(
        StorageError::CommitFailed.description(),
        "Failed to commit SQL transaction to store a new subscriber."
    );
}
