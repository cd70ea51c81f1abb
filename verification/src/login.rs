//! The login flow.
//!
//! Credentials are checked by the verifier; on success the client is sent
//! home, on failure it is redirected back to the login page with a
//! human-readable message carried as a signed query parameter.  The message
//! never distinguishes a wrong password from an unknown username.

use vstd::prelude::*;
use vstd::string::StringExecFns;
use crate::auth::{
    spec_validate_credentials,
    validate_credentials,
    AuthError,
    CredentialStore,
    Credentials,
};
use crate::codec::{encode, spec_query, spec_tag};

verus! {

/// The login failure shown to the client: authentication proper failed, or
/// something else went wrong on the way.
#[derive(Debug)]
pub enum LoginError {
    AuthError(String),
    UnexpectedError(String),
}

impl LoginError {
    /// The message the client may see; it never names the cause.
    pub fn message(&self) -> (r: &'static str)
        ensures
            self is AuthError ==> r@ == "Authentication failed"@,
            self is UnexpectedError ==> r@ == "Something went wrong"@,
    {
        match self {
            LoginError::AuthError(_) => "Authentication failed",
            LoginError::UnexpectedError(_) => "Something went wrong",
        }
    }
}

/// Where a finished login attempt sends the client: home, or back to the
/// login page with a signed error message in the query string.  Both are
/// `303 See Other` redirects.
pub enum LoginOutcome {
    Success { user_id: u128 },
    Failure { error: LoginError, location: String },
}

/// The `Location` of the failure redirect: back to `/login`, with the
/// signed query carrying the message and its tag.
pub open spec fn spec_login_location(message: Seq<char>, key: Seq<u8>) -> Seq<char> {
    "/login?"@ + spec_query(message) + "&tag="@ + spec_tag(message, key)
}

/// Handles one login attempt.  On success the outcome carries the verified
/// user id; on failure it carries the error and the redirect location whose
/// query is the signed encoding of the error's message under the given key,
/// so the login page can verify and display it.
pub fn login(credentials: Credentials, store: &CredentialStore, hmac_key: &[u8]) -> (r:
    LoginOutcome)
    ensures
        (match r {
            LoginOutcome::Success { user_id } => spec_validate_credentials(
                store@,
                credentials.username@,
                credentials.password@,
            ) == Ok::<u128, AuthError>(user_id),
            LoginOutcome::Failure { error, location } => (match spec_validate_credentials(
                store@,
                credentials.username@,
                credentials.password@,
            ) {
                Ok(_) => false,
                Err(AuthError::InvalidCredentials) => error is AuthError && location@
                    == spec_login_location("Authentication failed"@, hmac_key@),
                Err(AuthError::UnexpectedError) => error is UnexpectedError && location@
                    == spec_login_location("Something went wrong"@, hmac_key@),
            }),
        }),
{
    match validate_credentials(&credentials, store) {
        Ok(user_id) => LoginOutcome::Success { user_id },
        Err(e) => {
            let error = match e {
                AuthError::InvalidCredentials => LoginError::AuthError(
                    String::from_str("Invalid credentials."),
                ),
                AuthError::UnexpectedError => LoginError::UnexpectedError(
                    String::from_str("Unexpected error during credential validation."),
                ),
            };
            let redirect = encode(error.message(), hmac_key);
            let location = String::from_str("/login?").concat(redirect.query.as_str()).concat(
                "&tag=",
            ).concat(redirect.tag.as_str());
            LoginOutcome::Failure { error, location }
        },
    }
}

} // verus!
