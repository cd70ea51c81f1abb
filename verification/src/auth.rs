//! The credential verifier.
//!
//! Passwords are checked against stored PHC hash strings with a memory-hard
//! scheme whose parameters travel inside the hash.  The verifier never tells
//! a wrong password from an unknown username, and it burns the same hashing
//! work in both cases: for an unknown username it verifies the password
//! against a fixed fallback hash before failing, so the two failures are not
//! distinguishable by timing.

use vstd::prelude::*;
use vstd::utf8::encode_utf8;
use crate::secret::SecretString;
use crate::text::str_eq;

verus! {

/// Authentication failed.  `InvalidCredentials` covers both a wrong password
/// and an unknown username, deliberately without telling them apart;
/// `UnexpectedError` means the stored hash could not be used at all.
#[derive(Clone, Copy, PartialEq, Eq, Structural, Debug)]
pub enum AuthError {
    InvalidCredentials,
    UnexpectedError,
}

/// What a login attempt carries: the claimed username and the secret.
pub struct Credentials {
    pub username: String,
    pub password: SecretString,
}

/// One row of the users table: the stored, self-describing password hash.
pub struct StoredCredential {
    pub user_id: u128,
    pub username: String,
    pub password_hash: String,
}

/// Mathematical value of a stored credential.
pub struct StoredCredentialView {
    pub user_id: u128,
    pub username: Seq<char>,
    pub password_hash: Seq<char>,
}

impl View for StoredCredential {
    type V = StoredCredentialView;

    open spec fn view(&self) -> StoredCredentialView {
        StoredCredentialView {
            user_id: self.user_id,
            username: self.username@,
            password_hash: self.password_hash@,
        }
    }
}

/// The users known to the process, as fetched credentials.
pub struct CredentialStore {
    pub users: Vec<StoredCredential>,
}

impl View for CredentialStore {
    type V = Seq<StoredCredentialView>;

    open spec fn view(&self) -> Seq<StoredCredentialView> {
        self.users@.map_values(|u: StoredCredential| u@)
    }
}

/// The credential stored for a username, searching in row order.
pub open spec fn spec_lookup_user(
    users: Seq<StoredCredentialView>,
    username: Seq<char>,
) -> Option<StoredCredentialView>
    decreases users.len(),
{
    if users.len() == 0 {
        None
    } else if users[0].username == username {
        Some(users[0])
    } else {
        spec_lookup_user(users.skip(1), username)
    }
}

/// Whether a stored PHC hash string parses and names parameters the verifier
/// supports.
pub uninterp spec fn phc_wellformed(hash: Seq<char>) -> bool;

/// Whether the password is accepted against the stored PHC hash.
pub uninterp spec fn phc_matches(hash: Seq<char>, password: Seq<u8>) -> bool;

/// The largest password the hashing scheme accepts, in bytes.
pub open spec fn max_password_bytes() -> int {
    0xffff_ffff
}

/// Relies on the argon2 crate: `PasswordHash::new` parses the PHC string,
/// and `Argon2::verify_password` recomputes the hash with the algorithm,
/// parameters and salt taken from that string, so acceptance is a function
/// of hash string and password alone.  `phc_wellformed` stands for "parses
/// and names supported parameters", `phc_matches` for "the password is
/// accepted"; passwords above the scheme's four-gigabyte cap are left out.
#[verifier::external_body]
fn check_password_hash(expected_hash: &str, password: &[u8]) -> (r: Result<bool, ()>)
    requires
        password@.len() <= max_password_bytes(),
    ensures
        r is Ok <==> phc_wellformed(expected_hash@),
        (match r {
            Ok(m) => m == phc_matches(expected_hash@, password@),
            Err(()) => true,
        }),
{
    let parsed = match argon2::PasswordHash::new(expected_hash) {
        Ok(h) => h,
        Err(_) => return Err(()),
    };
    match argon2::PasswordVerifier::verify_password(&argon2::Argon2::default(), password, &parsed) {
        Ok(()) => Ok(true),
        Err(argon2::password_hash::Error::Password) => Ok(false),
        Err(_) => Err(()),
    }
}

/// The fallback hash an unknown username is "verified" against, so that the
/// unknown-username path costs the same hashing work as a real mismatch.
const FALLBACK_PASSWORD_HASH: &'static str = "$argon2id$v=19$m=4096,t=3,p=1$gZiV/M1gPc22ElAH/Jh1Hw$CWOrkoo7oJBQ/iyh7uJ0LO2aLEfrHwTWllSAxT0zRno";

/// What credential validation decides, given the users on file.
pub open spec fn spec_validate(
    users: Seq<StoredCredentialView>,
    username: Seq<char>,
    password: Seq<u8>,
) -> Result<u128, AuthError> {
    match spec_lookup_user(users, username) {
        None => Err(AuthError::InvalidCredentials),
        Some(c) => if !phc_wellformed(c.password_hash) {
            Err(AuthError::UnexpectedError)
        } else if phc_matches(c.password_hash, password) {
            Ok(c.user_id)
        } else {
            Err(AuthError::InvalidCredentials)
        },
    }
}

/// What credential validation decides for a supplied password, taking the
/// hashing scheme's byte cap into account: an over-long password is simply
/// invalid.
pub open spec fn spec_validate_credentials(
    users: Seq<StoredCredentialView>,
    username: Seq<char>,
    password: Seq<char>,
) -> Result<u128, AuthError> {
    let bytes = encode_utf8(password);
    if bytes.len() > max_password_bytes() {
        Err(AuthError::InvalidCredentials)
    } else {
        spec_validate(users, username, bytes)
    }
}

/// Verifies the supplied credentials against the stored ones.  Succeeds with
/// the user id exactly when the username is on file, its hash is usable and
/// the password is accepted against it; fails with `InvalidCredentials`
/// both for an unknown username and for a rejected password.
pub fn validate_credentials(credentials: &Credentials, store: &CredentialStore) -> (r: Result<
    u128,
    AuthError,
>)
    ensures
        r == spec_validate_credentials(store@, credentials.username@, credentials.password@),
{
    let password_bytes = credentials.password.expose().as_bytes();
    if password_bytes.len() > 0xffff_ffff {
        return Err(AuthError::InvalidCredentials);
    }
    let n = store.users.len();
    let mut i: usize = 0;
    proof {
        assert(store@.skip(0) =~= store@);
    }
    while i < n
        invariant
            i <= n,
            n == store.users@.len(),
            password_bytes@ == encode_utf8(credentials.password@),
            password_bytes@.len() <= max_password_bytes(),
            spec_lookup_user(store@.skip(i as int), credentials.username@) == spec_lookup_user(
                store@,
                credentials.username@,
            ),
        decreases n - i,
    {
        let user = &store.users[i];
        if str_eq(user.username.as_str(), credentials.username.as_str()) {
            return match check_password_hash(user.password_hash.as_str(), password_bytes) {
                Err(_) => Err(AuthError::UnexpectedError),
                Ok(true) => Ok(user.user_id),
                Ok(false) => Err(AuthError::InvalidCredentials),
            };
        }
        proof {
            assert(store@.skip(i as int)[0] == store@[i as int]);
            assert(store@.skip(i as int).skip(1) =~= store@.skip(i + 1));
        }
        i += 1;
    }
    proof {
        assert(store@.skip(n as int) =~= Seq::<StoredCredentialView>::empty());
    }
    let _ = check_password_hash(FALLBACK_PASSWORD_HASH, password_bytes);
    Err(AuthError::InvalidCredentials)
}

} // verus!
