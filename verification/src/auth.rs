//! The tokens with which devices prove that they know the shared key.

use vstd::prelude::*;

verus! {

/// The longest key that can be hashed: its length in bits has to fit 64 bits.
pub const MAX_HMAC_KEY: u64 = 0x1FFF_FFFF_FFFF_FFFF;

/// The longest input that can be signed: one hash block less than the longest key.
pub const MAX_HMAC_INPUT: u64 = 0x1FFF_FFFF_FFFF_FFBF;

/// HMAC-SHA256 of `data` under `key`.
pub uninterp spec fn hmac_sha256(key: Seq<u8>, data: Seq<u8>) -> Seq<u8>;

/// `ring::hmac::sign` with a `ring::hmac::Key` made of `key` for HMAC-SHA256: the
/// tag depends on the key and the data alone and is 32 bytes long. Longer inputs
/// than the two limits make the call panic.
#[verifier::external_body]
fn hmac_sign(key: &[u8], data: &[u8]) -> (tag: Vec<u8>)
    requires
        key@.len() <= MAX_HMAC_KEY,
        data@.len() <= MAX_HMAC_INPUT,
    ensures
        tag@ == hmac_sha256(key@, data@),
        tag@.len() == 32,
{
    let hmac_key = ring::hmac::Key::new(ring::hmac::HMAC_SHA256, key);
    ring::hmac::sign(&hmac_key, data).as_ref().to_vec()
}

/// `constant_time_eq::constant_time_eq`: whether two byte strings are equal.
#[verifier::external_body]
fn bytes_equal(a: &[u8], b: &[u8]) -> (equal: bool)
    ensures
        equal == (a@ == b@),
{
    constant_time_eq::constant_time_eq(a, b)
}

/// The token of a device: HMAC-SHA256 of its id, as UTF-8, under the shared key.
pub open spec fn token_of(key: Seq<u8>, device_id: Seq<char>) -> Seq<u8> {
    hmac_sha256(key, vstd::utf8::encode_utf8(device_id))
}

/// Whether a token can be computed at all.
pub open spec fn signable(key: Seq<u8>, device_id: Seq<char>) -> bool {
    key.len() <= MAX_HMAC_KEY && vstd::utf8::encode_utf8(device_id).len() <= MAX_HMAC_INPUT
}

/// Computes the 32-byte token of a device.
pub fn compute_token(key: &[u8], device_id: &str) -> (token: Vec<u8>)
    requires
        signable(key@, device_id@),
    ensures
        token@ == token_of(key@, device_id@),
        token@.len() == 32,
{
    hmac_sign(key, device_id.as_bytes())
}

/// Whether `token` is the device's token, compared in constant time.
pub fn verify_token(key: &[u8], device_id: &str, token: &[u8]) -> (valid: bool)
    requires
        signable(key@, device_id@),
    ensures
        valid == accepts(key@, device_id@, token@),
        token@.len() != 32 ==> !valid,
{
    let expected = compute_token(key, device_id);
    if expected.len() != token.len() {
        return false;
    }
    bytes_equal(expected.as_slice(), token)
}

/// Whether the relay takes `token` for the device's.
pub open spec fn accepts(key: Seq<u8>, device_id: Seq<char>, token: Seq<u8>) -> bool {
    token == token_of(key, device_id)
}

/// A computed token is accepted for the device and the key that it was computed
/// for, and no other token is.
pub proof fn law_own_token_is_accepted(key: Seq<u8>, device_id: Seq<char>, token: Seq<u8>)
    ensures
        accepts(key, device_id, token_of(key, device_id)),
        accepts(key, device_id, token) ==> token == token_of(key, device_id),
{
}

/// The token of a device is the HMAC-SHA256 of its id, as UTF-8, under the shared key, and
/// the relay takes that and nothing else.
pub proof fn law_tokens_are_macs_of_ids(key: Seq<u8>, device_id: Seq<char>, token: Seq<u8>)
    ensures
        token_of(key, device_id) == hmac_sha256(key, vstd::utf8::encode_utf8(device_id)),
        accepts(key, device_id, token) <==> token == hmac_sha256(
            key,
            vstd::utf8::encode_utf8(device_id),
        ),
{
}

} // verus!
