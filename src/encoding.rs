use vstd::prelude::*;
use vstd::string::*;

verus! {

#[verifier::external_type_specification]
#[verifier::external_body]
pub struct ExDecodeError(base64::DecodeError);

/// What standard base64 decoding makes of a text, if it is well formed.
pub uninterp spec fn base64_decoded(s: Seq<char>) -> Option<Seq<u8>>;

/// The standard, padded base64 text of some bytes.
pub uninterp spec fn base64_encoded(b: Seq<u8>) -> Seq<char>;

/// The JSON string literal for a text, quotes and escapes included.
pub uninterp spec fn json_quoted(s: Seq<char>) -> Seq<char>;

/// Relies on `base64::decode` (standard alphabet, padded): the bytes when
/// the text is well formed, an error otherwise.
#[verifier::external_body]
pub(crate) fn decode_base64(s: &str) -> (r: Result<Vec<u8>, base64::DecodeError>)
    ensures
        match r {
            Ok(b) => base64_decoded(s@) == Some(b@),
            Err(_) => base64_decoded(s@) is None,
        },
{
    base64::decode(s)
}

/// Relies on the `Display` impl of `base64::DecodeError` for its message.
#[verifier::external_body]
pub(crate) fn decode_error_text(e: &base64::DecodeError) -> String {
    e.to_string()
}

/// Relies on `base64::encode` (standard alphabet, padded).
#[verifier::external_body]
pub(crate) fn encode_base64(b: &[u8]) -> (r: String)
    ensures
        r@ == base64_encoded(b@),
        b@.len() > 0 ==> r@.len() > 0,
{
    base64::encode(b)
}

/// Relies on `serde_json::to_string` on a `str`, which writes a JSON string
/// literal; it cannot fail for a `str`, as it writes into memory.
#[verifier::external_body]
pub(crate) fn json_string(s: &str) -> (r: String)
    ensures
        r@ == json_quoted(s@),
{
    match serde_json::to_string(s) {
        Ok(t) => t,
        Err(_) => String::new(),
    }
}

/// A failure report: `{"error":<message>,"initalized":false}`.
pub open spec fn failure_text(message: Seq<char>) -> Seq<char> {
    "{\"error\":"@ + json_quoted(message) + ",\"initalized\":false}"@
}

/// The report of a successful initialization.
pub open spec fn success_text() -> Seq<char> {
    "{\"error\":\"none\",\"initalized\":true}"@
}

/// The message for a text that is not valid base64.
pub open spec fn decode_failure_message(detail: Seq<char>) -> Seq<char> {
    "Decoding Base64 "@ + detail
}

/// Builds `{"error":<message>,"initalized":false}`.
pub fn failure_response(message: &str) -> (r: String)
    ensures
        r@ == failure_text(message@),
{
    let quoted = json_string(message);
    let mut out = String::from_str("{\"error\":");
    out.append(quoted.as_str());
    out.append(",\"initalized\":false}");
    out
}

/// Builds `{"error":"none","initalized":true}`.
pub fn success_response() -> (r: String)
    ensures
        r@ == success_text(),
{
    String::from_str("{\"error\":\"none\",\"initalized\":true}")
}

/// Decodes standard base64, with the error described as `Decoding Base64 ...`.
pub fn decode_base64_text(s: &str) -> (r: Result<Vec<u8>, String>)
    ensures
        base64_decoded(s@) matches Some(b) ==> (r matches Ok(v) && v@ == b),
        base64_decoded(s@) is None ==> r is Err && exists|t: Seq<char>|
            r->Err_0@ == decode_failure_message(t),
{
    match decode_base64(s) {
        Ok(b) => Ok(b),
        Err(e) => {
            let detail = decode_error_text(&e);
            let mut message = String::from_str("Decoding Base64 ");
            message.append(detail.as_str());
            assert(message@ == decode_failure_message(detail@));
            Err(message)
        },
    }
}

/// Encodes bytes as standard, padded base64.
pub fn encode_base64_text(b: &[u8]) -> (r: String)
    ensures
        r@ == base64_encoded(b@),
        b@.len() > 0 ==> r@.len() > 0,
{
    encode_base64(b)
}

} // verus!
