//! The signed redirect codec.
//!
//! A human-readable error message has to survive a redirect on a stateless
//! client without being forgeable or reusable for another message.  `encode`
//! builds the query string `error=<percent-encoded message>` and a hex tag:
//! an HMAC-SHA-256 over the exact query string under a process-wide secret
//! key.  `decode_and_verify` recomputes the tag over the received query in
//! constant time and fails closed on any mismatch, discarding the message.

use vstd::prelude::*;
use vstd::string::StrSliceExecFns;
use vstd::string::StringExecFns;
use vstd::utf8::encode_utf8;
use crate::text::push_char;

verus! {

/// The received redirect does not verify: forged, truncated or replayed for
/// another message.  It carries nothing: the message is discarded.
#[derive(Clone, Copy, PartialEq, Eq, Structural, Debug)]
pub struct TamperError {}

// ------------------------------------------------------------------
// Lowercase hex, verified.
// ------------------------------------------------------------------

/// The lowercase hex digit for a value below 16.
pub open spec fn hex_digit_char(n: u8) -> char
    recommends
        n < 16,
{
    if n < 10 {
        (((n + 0x30) as u8) as char)
    } else {
        (((n + 0x57) as u8) as char)
    }
}

/// Lowercase hex encoding: two digits for each byte, high nibble first.
pub open spec fn hex_of(bytes: Seq<u8>) -> Seq<char> {
    Seq::new(
        bytes.len() * 2,
        |i: int|
            if i % 2 == 0 {
                hex_digit_char(bytes[i / 2] >> 4)
            } else {
                hex_digit_char(bytes[i / 2] & 0xf)
            },
    )
}

/// A lowercase hex digit.
pub open spec fn is_hex_char(c: char) -> bool {
    ('0' <= c && c <= '9') || ('a' <= c && c <= 'f')
}

/// The value of a lowercase hex digit.
pub open spec fn hex_val(c: char) -> u8
    recommends
        is_hex_char(c),
{
    if '0' <= c && c <= '9' {
        ((c as u32 - 0x30) as u8)
    } else {
        ((c as u32 - 0x57) as u8)
    }
}

/// A character sequence that lowercase hex decoding accepts.
pub open spec fn hex_decodable(s: Seq<char>) -> bool {
    s.len() % 2 == 0 && (forall|i: int| 0 <= i < s.len() ==> is_hex_char(s[i]))
}

/// The bytes a decodable hex sequence stands for.
pub open spec fn hex_bytes(s: Seq<char>) -> Seq<u8> {
    Seq::new(s.len() / 2, |i: int| (hex_val(s[2 * i]) << 4) | hex_val(s[2 * i + 1]))
}

proof fn lemma_nibbles(b: u8)
    ensures
        b >> 4 < 16,
        b & 0xf < 16,
        ((b >> 4) << 4) | (b & 0xf) == b,
{
    assert(b >> 4 < 16 && (b & 0xf) < 16 && (((b >> 4) << 4) | (b & 0xf)) == b) by (bit_vector);
}

proof fn lemma_nibble_split(x: u8, y: u8)
    requires
        x < 16,
        y < 16,
    ensures
        ((x << 4) | y) >> 4 == x,
        ((x << 4) | y) & 0xf == y,
{
    assert(x < 16 && y < 16 ==> ((x << 4) | y) >> 4 == x && (((x << 4) | y) & 0xf) == y)
        by (bit_vector);
}

proof fn lemma_hex_digit_char_val(n: u8)
    requires
        n < 16,
    ensures
        is_hex_char(hex_digit_char(n)),
        hex_val(hex_digit_char(n)) == n,
{
}

proof fn lemma_hex_char_digit(c: char)
    requires
        is_hex_char(c),
    ensures
        hex_val(c) < 16,
        hex_digit_char(hex_val(c)) == c,
{
}

/// Hex encoding always yields a decodable sequence.
pub proof fn lemma_hex_of_decodable(bytes: Seq<u8>)
    ensures
        hex_decodable(hex_of(bytes)),
{
    assert forall|i: int| 0 <= i < hex_of(bytes).len() implies is_hex_char(hex_of(bytes)[i]) by {
        lemma_nibbles(bytes[i / 2]);
        if i % 2 == 0 {
            lemma_hex_digit_char_val(bytes[i / 2] >> 4);
        } else {
            lemma_hex_digit_char_val(bytes[i / 2] & 0xf);
        }
    }
}

/// Decoding inverts hex encoding.
pub proof fn lemma_hex_round_trip(bytes: Seq<u8>)
    ensures
        hex_bytes(hex_of(bytes)) == bytes,
{
    let s = hex_of(bytes);
    assert forall|i: int| 0 <= i < hex_bytes(s).len() implies hex_bytes(s)[i] == bytes[i] by {
        lemma_nibbles(bytes[i]);
        assert(s[2 * i] == hex_digit_char(bytes[i] >> 4));
        assert(s[2 * i + 1] == hex_digit_char(bytes[i] & 0xf));
        lemma_hex_digit_char_val(bytes[i] >> 4);
        lemma_hex_digit_char_val(bytes[i] & 0xf);
    }
    assert(hex_bytes(s) =~= bytes);
}

/// Lowercase hex encoding is canonical: a decodable sequence is determined
/// by the bytes it stands for.
pub proof fn lemma_hex_canonical(s: Seq<char>)
    requires
        hex_decodable(s),
    ensures
        s == hex_of(hex_bytes(s)),
{
    let b = hex_bytes(s);
    assert(b.len() == s.len() / 2);
    assert forall|k: int| 0 <= k < s.len() implies s[k] == hex_of(b)[k] by {
        let i = k / 2;
        assert(0 <= i < b.len());
        lemma_hex_char_digit(s[2 * i]);
        lemma_hex_char_digit(s[2 * i + 1]);
        lemma_nibble_split(hex_val(s[2 * i]), hex_val(s[2 * i + 1]));
        assert(b[i] == (hex_val(s[2 * i]) << 4) | hex_val(s[2 * i + 1]));
        if k % 2 == 0 {
            assert(k == 2 * i);
            assert(hex_of(b)[k] == hex_digit_char(b[i] >> 4));
        } else {
            assert(k == 2 * i + 1);
            assert(hex_of(b)[k] == hex_digit_char(b[i] & 0xf));
        }
    }
    assert(s =~= hex_of(b));
}

fn hex_digit(n: u8) -> (c: char)
    requires
        n < 16,
    ensures
        c == hex_digit_char(n),
{
    if n < 10 {
        (n + 0x30) as char
    } else {
        (n + 0x57) as char
    }
}

proof fn lemma_hex_of_step(b: Seq<u8>, i: int)
    requires
        0 <= i < b.len(),
    ensures
        hex_of(b.subrange(0, i + 1)) == hex_of(b.subrange(0, i)).push(
            hex_digit_char(b[i] >> 4),
        ).push(hex_digit_char(b[i] & 0xf)),
{
    let lhs = hex_of(b.subrange(0, i + 1));
    let rhs = hex_of(b.subrange(0, i)).push(hex_digit_char(b[i] >> 4)).push(
        hex_digit_char(b[i] & 0xf),
    );
    assert forall|k: int| 0 <= k < lhs.len() implies lhs[k] == rhs[k] by {
        if k < 2 * i {
            assert(b.subrange(0, i + 1)[k / 2] == b[k / 2]);
            assert(b.subrange(0, i)[k / 2] == b[k / 2]);
        } else if k == 2 * i {
            assert(b.subrange(0, i + 1)[i] == b[i]);
        } else {
            assert(k == 2 * i + 1);
            assert(b.subrange(0, i + 1)[i] == b[i]);
        }
    }
    assert(lhs =~= rhs);
}

/// Lowercase hex encoding of a byte string.
pub fn hex_encode(bytes: &Vec<u8>) -> (r: String)
    ensures
        r@ == hex_of(bytes@),
{
    let n = bytes.len();
    let mut out = String::new();
    let mut i: usize = 0;
    proof {
        assert(hex_of(bytes@.subrange(0, 0)) =~= Seq::<char>::empty());
    }
    while i < n
        invariant
            i <= n,
            n == bytes@.len(),
            out@ == hex_of(bytes@.subrange(0, i as int)),
        decreases n - i,
    {
        let b = bytes[i];
        proof {
            lemma_nibbles(b);
            lemma_hex_of_step(bytes@, i as int);
        }
        push_char(&mut out, hex_digit(b >> 4));
        push_char(&mut out, hex_digit(b & 0xf));
        i += 1;
    }
    proof {
        assert(bytes@.subrange(0, n as int) =~= bytes@);
    }
    out
}

fn hex_val_of(c: char) -> (r: Option<u8>)
    ensures
        r is Some <==> is_hex_char(c),
        (match r {
            Some(v) => v == hex_val(c) && v < 16,
            None => true,
        }),
{
    let u = c as u32;
    if 0x30 <= u && u <= 0x39 {
        Some((u - 0x30) as u8)
    } else if 0x61 <= u && u <= 0x66 {
        Some((u - 0x57) as u8)
    } else {
        None
    }
}

/// Strict lowercase hex decoding: accepts exactly the sequences of even
/// length made of `0-9a-f`, and returns the bytes they stand for.
pub fn hex_decode(s: &str) -> (r: Option<Vec<u8>>)
    ensures
        r is Some <==> hex_decodable(s@),
        (match r {
            Some(b) => b@ == hex_bytes(s@),
            None => true,
        }),
{
    let len = s.unicode_len();
    if len % 2 != 0 {
        return None;
    }
    let half = len / 2;
    let mut out: Vec<u8> = Vec::new();
    let mut i: usize = 0;
    while i < half
        invariant
            i <= half,
            len == s@.len(),
            len % 2 == 0,
            half == len / 2,
            out@.len() == i,
            forall|j: int| 0 <= j < 2 * i ==> is_hex_char(s@[j]),
            forall|j: int| 0 <= j < i ==> out@[j] == hex_bytes(s@)[j],
        decreases half - i,
    {
        let c1 = s.get_char(2 * i);
        let c2 = s.get_char(2 * i + 1);
        let v1 = match hex_val_of(c1) {
            Some(v) => v,
            None => {
                return None;
            },
        };
        let v2 = match hex_val_of(c2) {
            Some(v) => v,
            None => {
                return None;
            },
        };
        out.push((v1 << 4) | v2);
        i += 1;
    }
    proof {
        assert(hex_decodable(s@));
        assert(out@ =~= hex_bytes(s@));
    }
    Some(out)
}

// ------------------------------------------------------------------
// The keyed tag and the percent-encoding of the message.
// ------------------------------------------------------------------

/// The HMAC-SHA-256 tag of a message under a key.
pub uninterp spec fn hmac_sha256_of(key: Seq<u8>, data: Seq<u8>) -> Seq<u8>;

/// Relies on the hmac and sha2 crates: `Hmac::<Sha256>` accepts keys of any
/// length, and the 32-byte tag is a function of key and data alone.
#[verifier::external_body]
fn hmac_sha256(key: &[u8], data: &[u8]) -> (r: Vec<u8>)
    ensures
        r@ == hmac_sha256_of(key@, data@),
        r@.len() == 32,
{
    let mut mac = <hmac::Hmac<sha2::Sha256> as hmac::Mac>::new_from_slice(key).expect(
        "HMAC accepts keys of any length",
    );
    hmac::Mac::update(&mut mac, data);
    hmac::Mac::finalize(mac).into_bytes().to_vec()
}

/// Relies on the hmac crate's `Mac::verify_slice`: it compares the candidate
/// with the computed 32-byte tag in constant time, accepting exactly when
/// they are equal.
#[verifier::external_body]
fn hmac_sha256_verify(key: &[u8], data: &[u8], tag: &[u8]) -> (r: bool)
    ensures
        r == (tag@ == hmac_sha256_of(key@, data@)),
{
    let mut mac = <hmac::Hmac<sha2::Sha256> as hmac::Mac>::new_from_slice(key).expect(
        "HMAC accepts keys of any length",
    );
    hmac::Mac::update(&mut mac, data);
    hmac::Mac::verify_slice(mac, tag).is_ok()
}

/// The percent-encoding of a character sequence.
pub uninterp spec fn url_encoded(s: Seq<char>) -> Seq<char>;

/// What percent-decoding makes of a character sequence, if anything.
pub uninterp spec fn url_decoded(s: Seq<char>) -> Option<Seq<char>>;

/// Relies on urlencoding::encode: it percent-encodes every byte except
/// alphanumerics and `-`, `_`, `.`, `~`, as a function of the input alone,
/// and urlencoding::decode maps the result back to the input.
#[verifier::external_body]
fn url_encode(s: &str) -> (r: String)
    ensures
        r@ == url_encoded(s@),
        url_decoded(r@) == Some(s@),
{
    urlencoding::encode(s).into_owned()
}

/// Relies on urlencoding::decode: it reverses percent-encoding, failing
/// exactly when the decoded bytes are not UTF-8.
#[verifier::external_body]
fn url_decode(s: &str) -> (r: Option<String>)
    ensures
        (match r {
            Some(d) => url_decoded(s@) == Some(d@),
            None => url_decoded(s@) is None,
        }),
{
    match urlencoding::decode(s) {
        Ok(d) => Some(d.into_owned()),
        Err(_) => None,
    }
}

// ------------------------------------------------------------------
// The codec itself.
// ------------------------------------------------------------------

/// The query string carrying a message: `error=` then the percent-encoded
/// message.
pub open spec fn spec_query(m: Seq<char>) -> Seq<char> {
    "error="@ + url_encoded(m)
}

/// The hex tag over a query string under a key.
pub open spec fn spec_query_tag(q: Seq<char>, key: Seq<u8>) -> Seq<char> {
    hex_of(hmac_sha256_of(key, encode_utf8(q)))
}

/// The tag that `encode` attaches to a message.
pub open spec fn spec_tag(m: Seq<char>, key: Seq<u8>) -> Seq<char> {
    spec_query_tag(spec_query(m), key)
}

/// What decoding makes of a received query, tag and key: the carried message
/// exactly when the tag is the one this server computes over this query, the
/// query has the `error=` shape, and the payload percent-decodes.
pub open spec fn spec_decode(q: Seq<char>, t: Seq<char>, key: Seq<u8>) -> Option<Seq<char>> {
    if t == spec_query_tag(q, key) && q.len() >= 6 && q.subrange(0, 6) == "error="@ {
        url_decoded(q.skip(6))
    } else {
        None
    }
}

/// A redirect payload: the query string and its tag, both URL-safe.
pub struct SignedRedirect {
    pub query: String,
    pub tag: String,
}

/// Tags a message for transport across a redirect.  The last clause is the
/// round trip: decoding what was just encoded, under the same key, yields
/// the original message.
pub fn encode(message: &str, key: &[u8]) -> (r: SignedRedirect)
    ensures
        r.query@ == spec_query(message@),
        r.tag@ == spec_tag(message@, key@),
        spec_decode(r.query@, r.tag@, key@) == Some(message@),
{
    let encoded = url_encode(message);
    let query = String::from_str("error=").concat(encoded.as_str());
    let tag_bytes = hmac_sha256(key, query.as_str().as_bytes());
    let tag = hex_encode(&tag_bytes);
    proof {
        reveal_strlit("error=");
        assert(query@.subrange(0, 6) =~= "error="@);
        assert(query@.skip(6) =~= url_encoded(message@));
    }
    SignedRedirect { query, tag }
}

/// Altering the tag of an encoded redirect, in however little, is detected:
/// under the same key, no tag other than the one `encode` computed makes
/// decoding succeed for that query.  (That an altered *query* is detected
/// rests on HMAC collision resistance, which is beyond this model.)
pub proof fn lemma_tag_tamper_detected(m: Seq<char>, key: Seq<u8>, t: Seq<char>)
    requires
        t != spec_tag(m, key),
    ensures
        spec_decode(spec_query(m), t, key) is None,
{
}

/// Verifies a received redirect and recovers the message it carries.  The
/// tag is recomputed over the exact query string and compared in constant
/// time; on any mismatch the message is discarded.
pub fn decode_and_verify(query: &str, tag: &str, key: &[u8]) -> (r: Result<String, TamperError>)
    ensures
        (match r {
            Ok(m) => spec_decode(query@, tag@, key@) == Some(m@),
            Err(_) => spec_decode(query@, tag@, key@) is None,
        }),
{
    let tag_bytes = match hex_decode(tag) {
        Some(b) => b,
        None => {
            proof {
                if tag@ == spec_query_tag(query@, key@) {
                    lemma_hex_of_decodable(hmac_sha256_of(key@, encode_utf8(query@)));
                }
            }
            return Err(TamperError {});
        },
    };
    if !hmac_sha256_verify(key, query.as_bytes(), &tag_bytes) {
        proof {
            if tag@ == spec_query_tag(query@, key@) {
                lemma_hex_round_trip(hmac_sha256_of(key@, encode_utf8(query@)));
            }
        }
        return Err(TamperError {});
    }
    proof {
        lemma_hex_canonical(tag@);
        assert(tag@ == spec_query_tag(query@, key@));
    }
    let qlen = query.unicode_len();
    if qlen < 6 {
        return Err(TamperError {});
    }
    let prefix_ok = query.get_char(0) == 'e' && query.get_char(1) == 'r' && query.get_char(2)
        == 'r' && query.get_char(3) == 'o' && query.get_char(4) == 'r' && query.get_char(5) == '=';
    proof {
        reveal_strlit("error=");
    }
    if !prefix_ok {
        proof {
            if query@.subrange(0, 6) == "error="@ {
                assert(query@.subrange(0, 6)[0] == 'e');
                assert(query@.subrange(0, 6)[1] == 'r');
                assert(query@.subrange(0, 6)[2] == 'r');
                assert(query@.subrange(0, 6)[3] == 'o');
                assert(query@.subrange(0, 6)[4] == 'r');
                assert(query@.subrange(0, 6)[5] == '=');
                assert(false);
            }
        }
        return Err(TamperError {});
    }
    proof {
        assert(query@.subrange(0, 6) =~= "error="@);
    }
    let rest = query.substring_char(6, qlen);
    proof {
        assert(rest@ =~= query@.skip(6));
    }
    match url_decode(rest) {
        Some(m) => Ok(m),
        None => Err(TamperError {}),
    }
}

} // verus!
