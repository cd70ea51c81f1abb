//! An opaque wrapper for secret strings.
//!
//! The wrapped value can be read only inside this crate, where the credential
//! verifier compares it against a stored hash; everything else sees a fixed
//! placeholder, so the secret cannot end up in logs or error messages by
//! accident.

use vstd::prelude::*;

verus! {

/// A secret string, such as a password in flight.
pub struct SecretString {
    value: String,
}

impl View for SecretString {
    type V = Seq<char>;

    closed spec fn view(&self) -> Seq<char> {
        self.value@
    }
}

impl SecretString {
    /// Wraps a secret.
    pub fn new(value: String) -> (s: SecretString)
        ensures
            s@ == value@,
    {
        SecretString { value }
    }

    /// The fixed placeholder under which the secret is rendered.
    pub fn redacted(&self) -> (r: &'static str)
        ensures
            r@ == "[REDACTED]"@,
    {
        "[REDACTED]"
    }

    /// The secret itself; reserved for the credential verifier.
    pub(crate) fn expose(&self) -> (r: &str)
        ensures
            r@ == self@,
    {
        self.value.as_str()
    }
}

} // verus!
