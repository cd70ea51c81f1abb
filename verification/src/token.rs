//! Generation of subscription confirmation tokens.

use vstd::prelude::*;
use crate::text::push_char;

verus! {

/// A character of the token alphabet: the 62 case-sensitive alphanumerics.
pub open spec fn is_token_char(c: char) -> bool {
    ('0' <= c && c <= '9') || ('A' <= c && c <= 'Z') || ('a' <= c && c <= 'z')
}

/// The shape of a subscription token: exactly 25 characters, each drawn from
/// the 62-symbol alphanumeric alphabet.
pub open spec fn is_subscription_token(s: Seq<char>) -> bool {
    s.len() == 25 && (forall|i: int| 0 <= i < s.len() ==> is_token_char(s[i]))
}

/// Relies on rand: `thread_rng` is a cryptographically secure generator, and
/// sampling the `Alphanumeric` distribution draws one byte uniformly from
/// 0-9, A-Z, a-z.  Nothing can be promised of which byte comes back.
#[verifier::external_body]
fn sample_alphanumeric_char() -> (c: char)
    ensures
        is_token_char(c),
{
    let b: u8 = rand::Rng::sample(&mut rand::thread_rng(), rand::distributions::Alphanumeric);
    char::from(b)
}

/// Generates a random 25-characters-long case-sensitive subscription token,
/// each character drawn uniformly from the alphanumeric alphabet by a
/// cryptographically secure source (about 148 bits of entropy).  The
/// generator keeps no state across calls.
pub fn generate_subscription_token() -> (r: String)
    ensures
        is_subscription_token(r@),
{
    let mut out = String::new();
    let mut i: usize = 0;
    while i < 25
        invariant
            i <= 25,
            out@.len() == i,
            forall|j: int| 0 <= j < out@.len() ==> is_token_char(out@[j]),
        decreases 25 - i,
    {
        let c = sample_alphanumeric_char();
        push_char(&mut out, c);
        i += 1;
    }
    out
}

} // verus!
