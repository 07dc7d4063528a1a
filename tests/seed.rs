use walletbridge::seed::{check_response, seed_phrase_from_entropy_bytes, seed_response};
use walletbridge::{
    check_seed_phrase, get_seed_phrase, get_seed_phrase_from_entropy,
    get_seed_phrase_from_entropy_b64,
};

const TWELVE: &str =
    "abandon abandon abandon abandon abandon abandon abandon abandon abandon abandon abandon about";

fn twenty_four_zero_phrase() -> String {
    let mut words = vec!["abandon"; 23];
    words.push("art");
    words.join(" ")
}

#[test]
fn valid_phrase_checks_ok() {
    assert_eq!(check_seed_phrase(TWELVE), r#"{"checkSeedPhrase":"Ok"}"#);
    assert_eq!(check_seed_phrase(&twenty_four_zero_phrase()), r#"{"checkSeedPhrase":"Ok"}"#);
}

#[test]
fn invalid_phrases_check_error() {
    assert_eq!(check_seed_phrase("not a real phrase"), r#"{"checkSeedPhrase":"Error"}"#);
    assert_eq!(check_seed_phrase(""), r#"{"checkSeedPhrase":"Error"}"#);
    let bad_checksum =
        "abandon abandon abandon abandon abandon abandon abandon abandon abandon abandon abandon abandon";
    assert_eq!(check_seed_phrase(bad_checksum), r#"{"checkSeedPhrase":"Error"}"#);
}

#[test]
fn check_replies() {
    assert_eq!(check_response(true), r#"{"checkSeedPhrase":"Ok"}"#);
    assert_eq!(check_response(false), r#"{"checkSeedPhrase":"Error"}"#);
}

#[test]
fn seed_reply_quotes_phrase() {
    assert_eq!(seed_response("a b"), r#"{"seedPhrase":"a b"}"#);
    assert_eq!(seed_response("q\"x"), r#"{"seedPhrase":"q\"x"}"#);
}

#[test]
fn zero_entropy_gives_known_phrases() {
    let r = seed_phrase_from_entropy_bytes(&[0u8; 16]);
    assert_eq!(r, format!("{{\"seedPhrase\":\"{}\"}}", TWELVE));
    let r = seed_phrase_from_entropy_bytes(&[0u8; 32]);
    assert_eq!(r, format!("{{\"seedPhrase\":\"{}\"}}", twenty_four_zero_phrase()));
}

#[test]
fn entropy_derivation_is_deterministic() {
    let text = "\0".repeat(32);
    let a = get_seed_phrase_from_entropy(&text);
    let b = get_seed_phrase_from_entropy(&text);
    assert_eq!(a, b);
    assert_eq!(a, format!("{{\"seedPhrase\":\"{}\"}}", twenty_four_zero_phrase()));
    let other = get_seed_phrase_from_entropy("0123456789abcdef");
    assert_eq!(other, get_seed_phrase_from_entropy("0123456789abcdef"));
    assert_ne!(other, a);
}

#[test]
fn unsupported_entropy_is_reported() {
    let r = get_seed_phrase_from_entropy("short");
    assert_eq!(
        r,
        r#"{"error":"Invalid entropy length: expected 16, 20, 24, 28 or 32 bytes","initalized":false}"#
    );
    let r = seed_phrase_from_entropy_bytes(&[0u8; 33]);
    assert!(r.starts_with(r#"{"error":"Invalid entropy length"#));
}

#[test]
fn base64_entropy() {
    let r = get_seed_phrase_from_entropy_b64("AAAAAAAAAAAAAAAAAAAAAA==");
    assert_eq!(r, format!("{{\"seedPhrase\":\"{}\"}}", TWELVE));
}

#[test]
fn invalid_base64_entropy_is_reported() {
    let r = get_seed_phrase_from_entropy_b64("not-valid-base64!!");
    assert!(r.starts_with(r#"{"error":"Decoding Base64 "#), "{}", r);
    assert!(r.ends_with(r#","initalized":false}"#), "{}", r);
}

#[test]
fn generated_phrase_is_valid() {
    let r = get_seed_phrase();
    let prefix = "{\"seedPhrase\":\"";
    assert!(r.starts_with(prefix));
    let phrase = &r[prefix.len()..r.len() - 2];
    assert_eq!(phrase.split(' ').count(), 24);
    assert_eq!(check_seed_phrase(phrase), r#"{"checkSeedPhrase":"Ok"}"#);
    assert_ne!(get_seed_phrase(), r);
}
