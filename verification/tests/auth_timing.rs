use argon2::password_hash::{PasswordHasher, SaltString};
use rust_newsletter::auth::{validate_credentials, CredentialStore, Credentials, StoredCredential};
use rust_newsletter::secret::SecretString;
use std::time::Instant;

/// Hashes with the same cost parameters as the verifier's fallback hash, so
/// a real mismatch and the unknown-user dummy verification do equal work.
fn hash_password(password: &str) -> String {
    let salt = SaltString::from_b64("YW5vdGhlcnNhbHQxMjM").unwrap();
    let params = argon2::Params::new(4096, 3, 1, None).unwrap();
    let hasher = argon2::Argon2::new(argon2::Algorithm::Argon2id, argon2::Version::V0x13, params);
    hasher
        .hash_password(password.as_bytes(), &salt)
        .unwrap()
        .to_string()
}

fn median_micros(store: &CredentialStore, username: &str, runs: usize) -> u128 {
    let mut samples: Vec<u128> = Vec::new();
    for _ in 0..runs {
        let credentials = Credentials {
            username: username.to_string(),
            password: SecretString::new("not the password".to_string()),
        };
        let start = Instant::now();
        let result = validate_credentials(&credentials, store);
        samples.push(start.elapsed().as_micros());
        assert!(result.is_err());
    }
    samples.sort();
    samples[samples.len() / 2]
}

#[test]
fn wrong_password_and_unknown_user_take_similar_time() {
    let store = CredentialStore {
        users: vec![StoredCredential {
            user_id: 1,
            username: "alice".to_string(),
            password_hash: hash_password("the real password"),
        }],
    };
    // Warm-up, so first-use costs do not land in one side's samples.
    median_micros(&store, "alice", 1);
    median_micros(&store, "nobody", 1);

    let wrong_password = median_micros(&store, "alice", 7);
    let unknown_user = median_micros(&store, "nobody", 7);

    let larger = wrong_password.max(unknown_user).max(1);
    let difference = wrong_password.abs_diff(unknown_user);
    // The two failure paths must be within half of the larger cost of each
    // other: skipping the dummy verification would make the unknown-user
    // path close to free and fail this bound.
    assert!(
        2 * difference <= larger,
        "timing gap too wide: wrong password {} us, unknown user {} us",
        wrong_password,
        unknown_user
    );
}
