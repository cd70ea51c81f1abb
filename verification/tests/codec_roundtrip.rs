use hmac::Mac;
use rust_newsletter::codec::{decode_and_verify, encode, hex_decode, hex_encode};

const KEY: &[u8] = b"super-secret-signing-key";

#[test]
fn encode_then_decode_returns_the_message() {
    let redirect = encode("Authentication failed", KEY);
    let message = decode_and_verify(&redirect.query, &redirect.tag, KEY).unwrap();
    assert_eq!(message, "Authentication failed");
}

#[test]
fn query_is_the_percent_encoded_message() {
    let redirect = encode("Authentication failed", KEY);
    assert_eq!(redirect.query, "error=Authentication%20failed");
}

#[test]
fn tag_matches_an_independent_hmac_computation() {
    let redirect = encode("Authentication failed", KEY);
    let mut mac = hmac::Hmac::<sha2::Sha256>::new_from_slice(KEY).unwrap();
    mac.update(redirect.query.as_bytes());
    let expected: String = mac
        .finalize()
        .into_bytes()
        .iter()
        .map(|b| format!("{:02x}", b))
        .collect();
    assert_eq!(redirect.tag, expected);
}

#[test]
fn altering_any_query_character_is_detected() {
    let redirect = encode("Authentication failed", KEY);
    let chars: Vec<char> = redirect.query.chars().collect();
    for i in 0..chars.len() {
        let mut altered = chars.clone();
        altered[i] = if altered[i] == 'X' { 'Y' } else { 'X' };
        let altered: String = altered.into_iter().collect();
        assert!(
            decode_and_verify(&altered, &redirect.tag, KEY).is_err(),
            "altered query accepted at position {}",
            i
        );
    }
}

#[test]
fn altering_any_tag_character_is_detected() {
    let redirect = encode("Authentication failed", KEY);
    let chars: Vec<char> = redirect.tag.chars().collect();
    for i in 0..chars.len() {
        let mut altered = chars.clone();
        altered[i] = if altered[i] == '0' { '1' } else { '0' };
        let altered: String = altered.into_iter().collect();
        assert!(
            decode_and_verify(&redirect.query, &altered, KEY).is_err(),
            "altered tag accepted at position {}",
            i
        );
    }
}

#[test]
fn truncated_query_is_detected() {
    let redirect = encode("Authentication failed", KEY);
    let truncated = &redirect.query[..redirect.query.len() - 1];
    assert!(decode_and_verify(truncated, &redirect.tag, KEY).is_err());
}

#[test]
fn wrong_key_is_detected() {
    let redirect = encode("Authentication failed", KEY);
    assert!(decode_and_verify(&redirect.query, &redirect.tag, b"another-key").is_err());
}

#[test]
fn tag_for_a_different_message_is_detected() {
    let one = encode("Authentication failed", KEY);
    let two = encode("Something went wrong", KEY);
    assert!(decode_and_verify(&one.query, &two.tag, KEY).is_err());
}

#[test]
fn round_trip_survives_unusual_messages() {
    for message in ["", "a&b=c", "100% sure?", "snowman \u{2603} says hi"] {
        let redirect = encode(message, KEY);
        let decoded = decode_and_verify(&redirect.query, &redirect.tag, KEY).unwrap();
        assert_eq!(decoded, message);
    }
}

#[test]
fn hex_encoding_is_lowercase_and_decodes_back() {
    let bytes = vec![0x00u8, 0xff, 0x1a, 0x80];
    let hex = hex_encode(&bytes);
    assert_eq!(hex, "00ff1a80");
    assert_eq!(hex_decode(&hex).unwrap(), bytes);
}

#[test]
fn hex_decode_rejects_uppercase_odd_and_junk() {
    assert!(hex_decode("00FF").is_none());
    assert!(hex_decode("abc").is_none());
    assert!(hex_decode("zz").is_none());
    assert_eq!(hex_decode("").unwrap(), Vec::<u8>::new());
}
