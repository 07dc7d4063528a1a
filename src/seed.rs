use vstd::prelude::*;
use vstd::string::*;

use crate::encoding::{
    base64_decoded, decode_base64_text, decode_failure_message, failure_response, failure_text,
    json_quoted,
};

verus! {

/// Whether a text is a valid English BIP39 mnemonic: known words, a
/// supported word count and a matching checksum.
pub uninterp spec fn bip39_phrase_valid(s: Seq<char>) -> bool;

/// The English BIP39 mnemonic that encodes some entropy.
pub uninterp spec fn bip39_phrase_of(entropy: Seq<u8>) -> Seq<char>;

/// The entropy sizes that BIP39 provides for: 128, 160, 192, 224 or 256 bits.
pub open spec fn entropy_len_supported(n: nat) -> bool {
    n == 16 || n == 20 || n == 24 || n == 28 || n == 32
}

/// Relies on `bip39::Mnemonic::from_phrase` with the English word list; it
/// rejects the empty text, whose one empty word is not in the list.
#[verifier::external_body]
fn phrase_is_valid(s: &str) -> (r: bool)
    ensures
        r == bip39_phrase_valid(s@),
        s@.len() == 0 ==> !r,
{
    bip39::Mnemonic::from_phrase(s, bip39::Language::English).is_ok()
}

/// Relies on `bip39::Mnemonic::from_entropy` with the English word list,
/// which accepts exactly the supported entropy sizes, and on `phrase`.
#[verifier::external_body]
fn phrase_of_entropy(entropy: &[u8]) -> (r: Option<String>)
    ensures
        r is Some <==> entropy_len_supported(entropy@.len()),
        r matches Some(p) ==> p@ == bip39_phrase_of(entropy@),
{
    bip39::Mnemonic::from_entropy(entropy, bip39::Language::English).ok().map(
        |m| m.phrase().to_string(),
    )
}

/// Relies on `rand::rngs::OsRng` through `Rng::fill` for 32 bytes from the
/// operating system; it panics only where the system has no entropy source.
#[verifier::external_body]
fn os_entropy() -> (r: [u8; 32]) {
    let mut bytes = [0u8; 32];
    rand::Rng::fill(&mut rand::rngs::OsRng, &mut bytes);
    bytes
}

/// `{"checkSeedPhrase":"Ok"}` or `{"checkSeedPhrase":"Error"}`.
pub open spec fn check_text(valid: bool) -> Seq<char> {
    if valid {
        "{\"checkSeedPhrase\":\"Ok\"}"@
    } else {
        "{\"checkSeedPhrase\":\"Error\"}"@
    }
}

/// `{"seedPhrase":<phrase>}`.
pub open spec fn seed_text(phrase: Seq<char>) -> Seq<char> {
    "{\"seedPhrase\":"@ + json_quoted(phrase) + "}"@
}

/// Why some entropy yields no phrase.
pub open spec fn entropy_len_message() -> Seq<char> {
    "Invalid entropy length: expected 16, 20, 24, 28 or 32 bytes"@
}

/// The reply to a request for the phrase of some entropy.
pub open spec fn entropy_text(entropy: Seq<u8>) -> Seq<char> {
    if entropy_len_supported(entropy.len()) {
        seed_text(bip39_phrase_of(entropy))
    } else {
        failure_text(entropy_len_message())
    }
}

/// The reply to a phrase check, given whether the phrase is valid.
pub fn check_response(valid: bool) -> (r: String)
    ensures
        r@ == check_text(valid),
{
    if valid {
        String::from_str("{\"checkSeedPhrase\":\"Ok\"}")
    } else {
        String::from_str("{\"checkSeedPhrase\":\"Error\"}")
    }
}

/// Reports whether a text is a valid English BIP39 mnemonic.
pub fn check_seed_phrase(seed_phrase: &str) -> (r: String)
    ensures
        r@ == check_text(bip39_phrase_valid(seed_phrase@)),
        seed_phrase@.len() == 0 ==> r@ == check_text(false),
{
    check_response(phrase_is_valid(seed_phrase))
}

/// Builds `{"seedPhrase":<phrase>}`.
pub fn seed_response(phrase: &str) -> (r: String)
    ensures
        r@ == seed_text(phrase@),
{
    let quoted = crate::encoding::json_string(phrase);
    let mut out = String::from_str("{\"seedPhrase\":");
    out.append(quoted.as_str());
    out.append("}");
    out
}

/// The phrase of some entropy, or a failure report when its size is not
/// one that BIP39 provides for.
pub fn seed_phrase_from_entropy_bytes(entropy: &[u8]) -> (r: String)
    ensures
        r@ == entropy_text(entropy@),
{
    match phrase_of_entropy(entropy) {
        Some(phrase) => seed_response(phrase.as_str()),
        None => {
            let message = "Invalid entropy length: expected 16, 20, 24, 28 or 32 bytes";
            proof {
                reveal_strlit("Invalid entropy length: expected 16, 20, 24, 28 or 32 bytes");
            }
            failure_response(message)
        },
    }
}

/// A fresh 24-word phrase from 32 bytes of operating-system entropy.
pub fn get_seed_phrase() -> (r: String)
    ensures
        exists|e: Seq<u8>| e.len() == 32 && r@ == seed_text(bip39_phrase_of(e)),
{
    let entropy = os_entropy();
    let r = seed_phrase_from_entropy_bytes(&entropy);
    assert(entropy_len_supported(entropy@.len()));
    r
}

/// The phrase of the UTF-8 bytes of a text.
pub fn get_seed_phrase_from_entropy(entropy: &str) -> (r: String)
    ensures
        r@ == entropy_text(entropy.spec_bytes()),
{
    let bytes = entropy.as_bytes_vec();
    seed_phrase_from_entropy_bytes(bytes.as_slice())
}

/// The phrase of the bytes that a base64 text decodes to, or a report of
/// why it does not decode.
pub fn get_seed_phrase_from_entropy_b64(entropyb64: &str) -> (r: String)
    ensures
        base64_decoded(entropyb64@) matches Some(b) ==> r@ == entropy_text(b),
        base64_decoded(entropyb64@) is None ==> exists|t: Seq<char>|
            r@ == failure_text(decode_failure_message(t)),
{
    match decode_base64_text(entropyb64) {
        Ok(bytes) => seed_phrase_from_entropy_bytes(bytes.as_slice()),
        Err(message) => failure_response(message.as_str()),
    }
}

/// The phrase is a function of the entropy alone: the same bytes always
/// give the same reply.
pub proof fn lemma_entropy_reply_deterministic(a: Seq<u8>, b: Seq<u8>)
    requires
        a == b,
    ensures
        entropy_text(a) == entropy_text(b),
{
}

/// Supported entropy yields a phrase, never a failure report.
pub proof fn lemma_supported_entropy_yields_phrase(e: Seq<u8>)
    requires
        entropy_len_supported(e.len()),
    ensures
        entropy_text(e) == seed_text(bip39_phrase_of(e)),
{
}

} // verus!
