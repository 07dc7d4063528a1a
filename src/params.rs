use vstd::prelude::*;
use vstd::string::*;

verus! {

/// Network parameters as supplied by a caller, before validation.
#[derive(Clone)]
pub struct JsAddressParameters {
    pub coin_type: String,
    pub hrp_sapling_extended_spending_key: String,
    pub hrp_sapling_extended_full_viewing_key: String,
    pub hrp_sapling_payment_address: String,
    pub b58_pubkey_address_prefix: [u8; 2],
    pub b58_script_address_prefix: [u8; 2],
}

/// A validated, immutable set of address and key encoding parameters.
#[derive(Clone)]
pub struct CustomParams {
    coin_type: u32,
    hrp_sapling_extended_spending_key: String,
    hrp_sapling_extended_full_viewing_key: String,
    hrp_sapling_payment_address: String,
    b58_pubkey_address_prefix: [u8; 2],
    b58_script_address_prefix: [u8; 2],
}

/// The mathematical content of a parameter set.
pub struct ParamsModel {
    pub coin_type: u32,
    pub hrp_spending_key: Seq<char>,
    pub hrp_full_viewing_key: Seq<char>,
    pub hrp_payment_address: Seq<char>,
    pub pubkey_prefix: Seq<u8>,
    pub script_prefix: Seq<u8>,
}

impl View for CustomParams {
    type V = ParamsModel;

    closed spec fn view(&self) -> ParamsModel {
        ParamsModel {
            coin_type: self.coin_type,
            hrp_spending_key: self.hrp_sapling_extended_spending_key@,
            hrp_full_viewing_key: self.hrp_sapling_extended_full_viewing_key@,
            hrp_payment_address: self.hrp_sapling_payment_address@,
            pubkey_prefix: self.b58_pubkey_address_prefix@,
            script_prefix: self.b58_script_address_prefix@,
        }
    }
}

pub open spec fn is_decimal_digit(c: char) -> bool {
    '0' <= c && c <= '9'
}

pub open spec fn all_decimal_digits(s: Seq<char>) -> bool {
    forall|i: int| 0 <= i < s.len() ==> is_decimal_digit(#[trigger] s[i])
}

/// The value of a sequence of decimal digits, most significant first.
pub open spec fn digits_value(s: Seq<char>) -> nat
    decreases s.len(),
{
    if s.len() == 0 {
        0
    } else {
        digits_value(s.drop_last()) * 10 + (s.last() as nat - '0' as nat) as nat
    }
}

/// The digits of a decimal numeral: the text without one optional leading `+`.
pub open spec fn numeral_digits(s: Seq<char>) -> Seq<char> {
    if s.len() > 0 && s[0] == '+' {
        s.drop_first()
    } else {
        s
    }
}

/// What parsing `s` as a decimal `u32` gives: at least one digit, only
/// digits after an optional `+`, and a value that fits.
pub open spec fn decimal_u32(s: Seq<char>) -> Option<u32> {
    let d = numeral_digits(s);
    if d.len() > 0 && all_decimal_digits(d) && digits_value(d) <= u32::MAX {
        Some(digits_value(d) as u32)
    } else {
        None
    }
}

/// The value of one hexadecimal digit, of either case.
pub open spec fn hex_digit_value(c: char) -> Option<u8> {
    if '0' <= c && c <= '9' {
        Some((c as u32 - '0' as u32) as u8)
    } else if 'a' <= c && c <= 'f' {
        Some((c as u32 - 'a' as u32 + 10) as u8)
    } else if 'A' <= c && c <= 'F' {
        Some((c as u32 - 'A' as u32 + 10) as u8)
    } else {
        None
    }
}

/// The two bytes that four hexadecimal digits spell, if `s` is exactly that.
pub open spec fn hex_prefix(s: Seq<char>) -> Option<Seq<u8>> {
    if s.len() == 4 && hex_digit_value(s[0]) is Some && hex_digit_value(s[1]) is Some
        && hex_digit_value(s[2]) is Some && hex_digit_value(s[3]) is Some {
        Some(
            seq![
                (hex_digit_value(s[0])->0 * 16 + hex_digit_value(s[1])->0) as u8,
                (hex_digit_value(s[2])->0 * 16 + hex_digit_value(s[3])->0) as u8,
            ],
        )
    } else {
        None
    }
}

/// The mainnet parameter set.
pub open spec fn mainnet_model() -> ParamsModel {
    ParamsModel {
        coin_type: 133,
        hrp_spending_key: "secret-extended-key-main"@,
        hrp_full_viewing_key: "zxviews"@,
        hrp_payment_address: "zs"@,
        pubkey_prefix: seq![0x1cu8, 0xb8u8],
        script_prefix: seq![0x1cu8, 0xbdu8],
    }
}

/// Whether a caller-supplied descriptor is acceptable: a decimal coin type
/// that fits in 32 bits and three non-empty prefixes.
pub open spec fn descriptor_valid(d: JsAddressParameters) -> bool {
    &&& decimal_u32(d.coin_type@) is Some
    &&& d.hrp_sapling_extended_spending_key@.len() > 0
    &&& d.hrp_sapling_extended_full_viewing_key@.len() > 0
    &&& d.hrp_sapling_payment_address@.len() > 0
}

/// The parameter set that a valid descriptor stands for.
pub open spec fn descriptor_model(d: JsAddressParameters) -> ParamsModel {
    ParamsModel {
        coin_type: decimal_u32(d.coin_type@)->0,
        hrp_spending_key: d.hrp_sapling_extended_spending_key@,
        hrp_full_viewing_key: d.hrp_sapling_extended_full_viewing_key@,
        hrp_payment_address: d.hrp_sapling_payment_address@,
        pubkey_prefix: d.b58_pubkey_address_prefix@,
        script_prefix: d.b58_script_address_prefix@,
    }
}

/// The parameter set resolved from an optional descriptor: the descriptor's
/// own values when it is valid, the mainnet set otherwise.
pub open spec fn resolved_model(d: Option<JsAddressParameters>) -> ParamsModel {
    match d {
        Some(js) => if descriptor_valid(js) {
            descriptor_model(js)
        } else {
            mainnet_model()
        },
        None => mainnet_model(),
    }
}

/// Relies on `MainNetwork::coin_type` of zcash_primitives: the mainnet BIP44 coin index.
#[verifier::external_body]
fn mainnet_coin_type() -> (r: u32)
    ensures
        r == 133,
{
    zcash_primitives::consensus::Parameters::coin_type(&zcash_primitives::consensus::MainNetwork)
}

/// Relies on `MainNetwork::hrp_sapling_extended_spending_key` of zcash_primitives.
#[verifier::external_body]
fn mainnet_hrp_spending_key() -> (r: String)
    ensures
        r@ == "secret-extended-key-main"@,
{
    zcash_primitives::consensus::Parameters::hrp_sapling_extended_spending_key(
        &zcash_primitives::consensus::MainNetwork,
    ).to_string()
}

/// Relies on `MainNetwork::hrp_sapling_extended_full_viewing_key` of zcash_primitives.
#[verifier::external_body]
fn mainnet_hrp_full_viewing_key() -> (r: String)
    ensures
        r@ == "zxviews"@,
{
    zcash_primitives::consensus::Parameters::hrp_sapling_extended_full_viewing_key(
        &zcash_primitives::consensus::MainNetwork,
    ).to_string()
}

/// Relies on `MainNetwork::hrp_sapling_payment_address` of zcash_primitives.
#[verifier::external_body]
fn mainnet_hrp_payment_address() -> (r: String)
    ensures
        r@ == "zs"@,
{
    zcash_primitives::consensus::Parameters::hrp_sapling_payment_address(
        &zcash_primitives::consensus::MainNetwork,
    ).to_string()
}

/// Relies on `MainNetwork::b58_pubkey_address_prefix` of zcash_primitives.
#[verifier::external_body]
fn mainnet_pubkey_prefix() -> (r: [u8; 2])
    ensures
        r@ == seq![0x1cu8, 0xb8u8],
{
    zcash_primitives::consensus::Parameters::b58_pubkey_address_prefix(
        &zcash_primitives::consensus::MainNetwork,
    )
}

/// Relies on `MainNetwork::b58_script_address_prefix` of zcash_primitives.
#[verifier::external_body]
fn mainnet_script_prefix() -> (r: [u8; 2])
    ensures
        r@ == seq![0x1cu8, 0xbdu8],
{
    zcash_primitives::consensus::Parameters::b58_script_address_prefix(
        &zcash_primitives::consensus::MainNetwork,
    )
}

/// Relies on hex's `FromHex` for `[u8; 2]`: exactly four hexadecimal digits
/// of either case, read as two bytes, high digit first.
#[verifier::external_body]
fn hex_pair(s: &str) -> (r: Option<[u8; 2]>)
    ensures
        match r {
            Some(a) => hex_prefix(s@) == Some(a@),
            None => hex_prefix(s@) is None,
        },
{
    <[u8; 2] as hex::FromHex>::from_hex(s).ok()
}

/// Decodes a base58 version prefix written as four hexadecimal digits.
pub fn decode_prefix(s: &str) -> (r: Option<[u8; 2]>)
    ensures
        match r {
            Some(a) => hex_prefix(s@) == Some(a@),
            None => hex_prefix(s@) is None,
        },
{
    hex_pair(s)
}

proof fn lemma_digits_prefix_bounded(s: Seq<char>, k: int)
    requires
        all_decimal_digits(s),
        0 <= k <= s.len(),
    ensures
        digits_value(s.take(k)) <= digits_value(s),
    decreases s.len(),
{
    if k < s.len() {
        let t = s.drop_last();
        assert(all_decimal_digits(t)) by {
            assert forall|i: int| 0 <= i < t.len() implies is_decimal_digit(#[trigger] t[i]) by {
                assert(t[i] == s[i]);
            }
        }
        lemma_digits_prefix_bounded(t, k);
        assert(t.take(k) =~= s.take(k));
    } else {
        assert(s.take(k) =~= s);
    }
}

/// Parses a decimal `u32` as Rust's `u32::from_str` does: one optional
/// leading `+`, then one or more ASCII digits, with a value that fits.
pub fn parse_decimal_u32(s: &str) -> (r: Option<u32>)
    ensures
        r == decimal_u32(s@),
{
    let n = s.unicode_len();
    let mut start: usize = 0;
    if n > 0 && s.get_char(0) == '+' {
        start = 1;
    }
    let ghost d = numeral_digits(s@);
    assert(d =~= s@.subrange(start as int, n as int));
    if start == n {
        return None;
    }
    let mut acc: u64 = 0;
    let mut i: usize = start;
    while i < n
        invariant
            start <= i <= n,
            n == s@.len(),
            d == numeral_digits(s@),
            d =~= s@.subrange(start as int, n as int),
            all_decimal_digits(d.take(i - start)),
            acc == digits_value(d.take(i - start)),
            acc <= u32::MAX,
        decreases n - i,
    {
        let c = s.get_char(i);
        let ghost k: int = i - start;
        if c < '0' || c > '9' {
            assert(d[k] == c);
            assert(!is_decimal_digit(d[k]));
            assert(!all_decimal_digits(d));
            return None;
        }
        let digit: u64 = (c as u32 - '0' as u32) as u64;
        let next: u64 = acc * 10 + digit;
        proof {
            let t = d.take(k + 1);
            assert(t.drop_last() =~= d.take(k));
            assert(t.last() == c);
            assert(all_decimal_digits(t)) by {
                assert forall|j: int| 0 <= j < t.len() implies is_decimal_digit(#[trigger] t[j]) by {
                    if j < k {
                        assert(t[j] == d.take(k)[j]);
                    }
                }
            }
            assert(digits_value(t) == digits_value(d.take(k)) * 10 + (c as nat - '0' as nat));
            assert(digits_value(t) == next);
        }
        if next > u32::MAX as u64 {
            proof {
                if all_decimal_digits(d) {
                    lemma_digits_prefix_bounded(d, k + 1);
                    assert(digits_value(d) > u32::MAX);
                }
            }
            return None;
        }
        acc = next;
        i = i + 1;
    }
    assert(d.take(n - start) =~= d);
    Some(acc as u32)
}

impl CustomParams {
    /// The compiled-in mainnet parameter set.
    pub fn from_mainnet() -> (r: Self)
        ensures
            r@ == mainnet_model(),
    {
        CustomParams {
            coin_type: mainnet_coin_type(),
            hrp_sapling_extended_spending_key: mainnet_hrp_spending_key(),
            hrp_sapling_extended_full_viewing_key: mainnet_hrp_full_viewing_key(),
            hrp_sapling_payment_address: mainnet_hrp_payment_address(),
            b58_pubkey_address_prefix: mainnet_pubkey_prefix(),
            b58_script_address_prefix: mainnet_script_prefix(),
        }
    }

    /// Validates a caller-supplied descriptor and takes its values verbatim.
    pub fn from_descriptor(js: JsAddressParameters) -> (r: Option<Self>)
        ensures
            r is Some <==> descriptor_valid(js),
            r matches Some(p) ==> p@ == descriptor_model(js),
    {
        let coin_type = match parse_decimal_u32(js.coin_type.as_str()) {
            Some(c) => c,
            None => return None,
        };
        if js.hrp_sapling_extended_spending_key.as_str().unicode_len() == 0 {
            return None;
        }
        if js.hrp_sapling_extended_full_viewing_key.as_str().unicode_len() == 0 {
            return None;
        }
        if js.hrp_sapling_payment_address.as_str().unicode_len() == 0 {
            return None;
        }
        Some(CustomParams {
            coin_type,
            hrp_sapling_extended_spending_key: js.hrp_sapling_extended_spending_key,
            hrp_sapling_extended_full_viewing_key: js.hrp_sapling_extended_full_viewing_key,
            hrp_sapling_payment_address: js.hrp_sapling_payment_address,
            b58_pubkey_address_prefix: js.b58_pubkey_address_prefix,
            b58_script_address_prefix: js.b58_script_address_prefix,
        })
    }

    pub fn coin_type(&self) -> (r: u32)
        ensures
            r == self@.coin_type,
    {
        self.coin_type
    }

    pub fn hrp_sapling_extended_spending_key(&self) -> (r: &str)
        ensures
            r@ == self@.hrp_spending_key,
    {
        self.hrp_sapling_extended_spending_key.as_str()
    }

    pub fn hrp_sapling_extended_full_viewing_key(&self) -> (r: &str)
        ensures
            r@ == self@.hrp_full_viewing_key,
    {
        self.hrp_sapling_extended_full_viewing_key.as_str()
    }

    pub fn hrp_sapling_payment_address(&self) -> (r: &str)
        ensures
            r@ == self@.hrp_payment_address,
    {
        self.hrp_sapling_payment_address.as_str()
    }

    pub fn b58_pubkey_address_prefix(&self) -> (r: [u8; 2])
        ensures
            r@ == self@.pubkey_prefix,
    {
        self.b58_pubkey_address_prefix
    }

    pub fn b58_script_address_prefix(&self) -> (r: [u8; 2])
        ensures
            r@ == self@.script_prefix,
    {
        self.b58_script_address_prefix
    }
}

/// Resolves the parameters for a session, and tells whether the mainnet
/// defaults were used in place of the descriptor.
pub fn resolve(descriptor: Option<JsAddressParameters>) -> (r: (CustomParams, bool))
    ensures
        r.0@ == resolved_model(descriptor),
        r.1 <==> !(descriptor matches Some(js) && descriptor_valid(js)),
{
    match descriptor {
        Some(js) => match CustomParams::from_descriptor(js) {
            Some(p) => (p, false),
            None => (CustomParams::from_mainnet(), true),
        },
        None => (CustomParams::from_mainnet(), true),
    }
}

/// The parameters for a session: the descriptor's when it is valid, the
/// mainnet set otherwise. A malformed descriptor is never an error.
pub fn get_address_params(descriptor: Option<JsAddressParameters>) -> (r: CustomParams)
    ensures
        r@ == resolved_model(descriptor),
{
    resolve(descriptor).0
}

/// A valid descriptor resolves to a parameter set with exactly its values.
pub proof fn lemma_valid_descriptor_kept(js: JsAddressParameters)
    requires
        descriptor_valid(js),
    ensures
        resolved_model(Some(js)).coin_type == decimal_u32(js.coin_type@)->0,
        resolved_model(Some(js)).hrp_spending_key == js.hrp_sapling_extended_spending_key@,
        resolved_model(Some(js)).hrp_full_viewing_key == js.hrp_sapling_extended_full_viewing_key@,
        resolved_model(Some(js)).hrp_payment_address == js.hrp_sapling_payment_address@,
        resolved_model(Some(js)).pubkey_prefix == js.b58_pubkey_address_prefix@,
        resolved_model(Some(js)).script_prefix == js.b58_script_address_prefix@,
{
}

/// An absent or malformed descriptor resolves to the mainnet constants.
pub proof fn lemma_fallback_is_mainnet(d: Option<JsAddressParameters>)
    requires
        !(d matches Some(js) && descriptor_valid(js)),
    ensures
        resolved_model(d).coin_type == 133,
        resolved_model(d).hrp_spending_key == "secret-extended-key-main"@,
        resolved_model(d).hrp_full_viewing_key == "zxviews"@,
        resolved_model(d).hrp_payment_address == "zs"@,
        resolved_model(d).pubkey_prefix == seq![0x1cu8, 0xb8u8],
        resolved_model(d).script_prefix == seq![0x1cu8, 0xbdu8],
{
}

} // verus!
