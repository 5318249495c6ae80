//! Calls into the NEAR SDK and bincode that the bridge logic relies on.
//! Each outside result is stated, or named by a spec function where it takes
//! more than a few lines to state; the wrappers below are the only places
//! where the outside code runs.
use vstd::prelude::*;
use vstd::utf8::encode_utf8;

verus! {

/// `n` as `width` bytes, least significant first (`n` taken modulo 256^width).
pub open spec fn le_bytes(n: nat, width: nat) -> Seq<u8>
    decreases width,
{
    if width == 0 {
        Seq::empty()
    } else {
        seq![(n % 256) as u8] + le_bytes(n / 256, (width - 1) as nat)
    }
}

/// The ASCII decimal digits of `n`, without leading zeros.
pub open spec fn decimal(n: nat) -> Seq<u8>
    decreases n,
{
    if n < 10 {
        seq![(48 + n) as u8]
    } else {
        decimal(n / 10).push((48 + n % 10) as u8)
    }
}

/// A byte string after its length as a little-endian `u64`.
pub open spec fn length_prefixed(b: Seq<u8>) -> Seq<u8> {
    le_bytes(b.len(), 8) + b
}

/// The canonical encoding of a transaction's fields, in order: `from` and
/// `to` as length-prefixed UTF-8, `amount` as 16 little-endian bytes, then
/// `timestamp` and `nonce` as length-prefixed decimal digits.
pub open spec fn tx_encoding(
    from: Seq<char>,
    to: Seq<char>,
    amount: u128,
    timestamp: u64,
    nonce: u128,
) -> Seq<u8> {
    length_prefixed(encode_utf8(from)) + length_prefixed(encode_utf8(to)) + le_bytes(
        amount as nat,
        16,
    ) + length_prefixed(decimal(timestamp as nat)) + length_prefixed(decimal(nonce as nat))
}

/// The Keccak-256 digest of a byte string.
pub uninterp spec fn keccak256_of(data: Seq<u8>) -> Seq<u8>;

/// The secp256k1 public key (64 bytes) that signed `hash`, as recovered by the
/// host, or `None` where recovery fails.
pub uninterp spec fn ecrecover_of(
    hash: Seq<u8>,
    signature: Seq<u8>,
    v: u8,
    malleability_flag: bool,
) -> Option<Seq<u8>>;

/// The bytes of a parsed NEAR public key (curve byte, then key data), or `None`
/// where the text is not a public key.
pub uninterp spec fn public_key_of(text: Seq<char>) -> Option<Seq<u8>>;

/// A separator between the parts of an account identifier.
pub open spec fn is_account_separator(c: char) -> bool {
    c == '-' || c == '_' || c == '.'
}

/// A character that may stand in an account identifier.
pub open spec fn is_account_char(c: char) -> bool {
    ||| ('a' as u32 <= c as u32 && c as u32 <= 'z' as u32)
    ||| ('0' as u32 <= c as u32 && c as u32 <= '9' as u32)
    ||| is_account_separator(c)
}

/// Whether the text is a well-formed NEAR account identifier: 2 to 64
/// characters from `a-z`, `0-9` and the separators `-_.`, with no separator
/// first, last or next to another.
pub open spec fn account_id_valid(text: Seq<char>) -> bool {
    &&& 2 <= text.len() <= 64
    &&& forall|i: int| 0 <= i < text.len() ==> is_account_char(#[trigger] text[i])
    &&& !is_account_separator(text[0])
    &&& !is_account_separator(text.last())
    &&& forall|i: int|
        0 <= i < text.len() - 1 ==> !(is_account_separator(#[trigger] text[i])
            && is_account_separator(text[i + 1]))
}

/// The view of an optional byte vector.
pub open spec fn opt_bytes(o: Option<Vec<u8>>) -> Option<Seq<u8>> {
    match o {
        Some(v) => Some(v@),
        None => None,
    }
}

/// Relies on bincode::serialize of a tuple `(from, to, amount, U64(timestamp),
/// U128(nonce))`: its default options write integers at fixed width, little
/// endian, and a string as its `u64` length then its UTF-8 bytes; `U64` and
/// `U128` serialize as their decimal strings. With bincode's
/// default options there is no size limit, and strings and integers written
/// to a `Vec` have no error path, so the call always succeeds.
#[verifier::external_body]
pub(crate) fn encode_transaction(
    from: &String,
    to: &String,
    amount: u128,
    timestamp: u64,
    nonce: u128,
) -> (r: Option<Vec<u8>>)
    ensures
        r is Some,
        r matches Some(b) ==> b@ == tx_encoding(from@, to@, amount, timestamp, nonce),
{
    let fields = (
        from,
        to,
        amount,
        near_sdk::json_types::U64(timestamp),
        near_sdk::json_types::U128(nonce),
    );
    bincode::serialize(&fields).ok()
}

/// Relies on near_sdk::env::keccak256: a 32-byte digest of the input.
#[verifier::external_body]
pub(crate) fn keccak256(data: &Vec<u8>) -> (r: Vec<u8>)
    ensures
        r@ == keccak256_of(data@),
        r@.len() == 32,
{
    near_sdk::env::keccak256(data)
}

/// Relies on near_sdk::env::ecrecover: the host refuses a hash that is not 32
/// bytes, a signature that is not 64 bytes and a recovery byte of 4 or more;
/// otherwise it returns the 64-byte public key, or `None`.
#[verifier::external_body]
pub(crate) fn ecrecover(
    hash: &Vec<u8>,
    signature: &[u8],
    v: u8,
    malleability_flag: bool,
) -> (r: Option<Vec<u8>>)
    requires
        hash@.len() == 32,
        signature@.len() == 64,
        v < 4,
    ensures
        opt_bytes(r) == ecrecover_of(hash@, signature@, v, malleability_flag),
        r matches Some(k) ==> k@.len() == 64,
{
    near_sdk::env::ecrecover(hash, signature, v, malleability_flag).map(|k| k.to_vec())
}

/// Relies on `FromStr` of near_sdk::PublicKey and on its `into_bytes`.
#[verifier::external_body]
pub(crate) fn parse_public_key(text: &str) -> (r: Option<Vec<u8>>)
    ensures
        opt_bytes(r) == public_key_of(text@),
{
    text.parse::<near_sdk::PublicKey>().ok().map(|k| k.into_bytes())
}

/// Relies on near_sdk::AccountId::validate: it checks the byte length is 2
/// to 64, refuses any character outside `a-z0-9-_.` (so every accepted
/// character is one byte), and refuses a separator at either end or after
/// another separator.
#[verifier::external_body]
pub(crate) fn is_valid_account_id(text: &str) -> (r: bool)
    ensures
        r == account_id_valid(text@),
{
    near_sdk::AccountId::validate(text).is_ok()
}

} // verus!
