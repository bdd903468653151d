//! Trusted boundary to the cryptographic and lookup crates the broker leans
//! on: blake3 hashing, ed25519 signatures, the ISO country-code table, and a
//! source of randomness. Each wrapper's contract states only what the crate's
//! own source and documentation show.
use vstd::prelude::*;

verus! {

/// The blake3 digest of a byte string.
pub uninterp spec fn blake3_of(input: Seq<u8>) -> Seq<u8>;

/// The blake3 keyed digest of a byte string under a 32-byte key.
pub uninterp spec fn blake3_keyed_of(key: Seq<u8>, input: Seq<u8>) -> Seq<u8>;

/// The ed25519 verifying key derived from a 32-byte signing key.
pub uninterp spec fn ed25519_vk_of(sk: Seq<u8>) -> Seq<u8>;

/// The ed25519 signature of a message under a 32-byte signing key
/// (deterministic by construction of the scheme).
pub uninterp spec fn ed25519_sign_of(sk: Seq<u8>, msg: Seq<u8>) -> Seq<u8>;

/// Whether a 64-byte signature verifies over a message under a 32-byte
/// verifying key.
pub uninterp spec fn ed25519_verifies(vk: Seq<u8>, msg: Seq<u8>, sig: Seq<u8>) -> bool;

/// Whether two bytes spell a known two-letter country code, compared without
/// regard to case.
pub uninterp spec fn iso_alpha2_caseless(a: u8, b: u8) -> bool;

/// Relies on blake3::hash: a 32-byte digest that depends on the input alone.
#[verifier::external_body]
pub(crate) fn blake3_hash(input: &Vec<u8>) -> (r: Vec<u8>)
    ensures
        r@ == blake3_of(input@),
        r@.len() == 32,
{
    blake3::hash(input.as_slice()).as_bytes().to_vec()
}

/// Relies on blake3::keyed_hash: a 32-byte digest that depends on the 32-byte
/// key and the input alone.
#[verifier::external_body]
pub(crate) fn blake3_keyed(key: &Vec<u8>, input: &Vec<u8>) -> (r: Vec<u8>)
    requires
        key@.len() == 32,
    ensures
        r@ == blake3_keyed_of(key@, input@),
        r@.len() == 32,
{
    let key_arr: &[u8; 32] = key.as_slice().try_into().unwrap();
    blake3::keyed_hash(key_arr, input.as_slice()).as_bytes().to_vec()
}

/// Relies on ed25519_dalek::SigningKey::verifying_key: the public key is a
/// function of the 32-byte signing key alone, and is 32 bytes long.
#[verifier::external_body]
pub(crate) fn ed25519_verifying_key(sk: &Vec<u8>) -> (r: Vec<u8>)
    requires
        sk@.len() == 32,
    ensures
        r@ == ed25519_vk_of(sk@),
        r@.len() == 32,
{
    let sk_arr: &[u8; 32] = sk.as_slice().try_into().unwrap();
    let signing = ed25519_dalek::SigningKey::from_bytes(sk_arr);
    signing.verifying_key().to_bytes().to_vec()
}

/// Relies on ed25519_dalek::Signer::sign: signing is deterministic in the
/// signing key and message, yields 64 bytes, and the produced signature
/// verifies under the corresponding verifying key.
#[verifier::external_body]
pub(crate) fn ed25519_sign(sk: &Vec<u8>, msg: &Vec<u8>) -> (r: Vec<u8>)
    requires
        sk@.len() == 32,
    ensures
        r@ == ed25519_sign_of(sk@, msg@),
        r@.len() == 64,
        ed25519_verifies(ed25519_vk_of(sk@), msg@, r@),
{
    let sk_arr: &[u8; 32] = sk.as_slice().try_into().unwrap();
    let signing = ed25519_dalek::SigningKey::from_bytes(sk_arr);
    ed25519_dalek::Signer::sign(&signing, msg.as_slice()).to_bytes().to_vec()
}

/// Relies on ed25519_dalek::Verifier::verify: acceptance depends on the
/// verifying key, message and signature alone. A key that decodes to no valid
/// curve point accepts nothing.
#[verifier::external_body]
pub(crate) fn ed25519_verify(vk: &Vec<u8>, msg: &Vec<u8>, sig: &Vec<u8>) -> (r: bool)
    requires
        vk@.len() == 32,
        sig@.len() == 64,
    ensures
        r == ed25519_verifies(vk@, msg@, sig@),
{
    let vk_arr: &[u8; 32] = vk.as_slice().try_into().unwrap();
    let sig_arr: &[u8; 64] = sig.as_slice().try_into().unwrap();
    match ed25519_dalek::VerifyingKey::from_bytes(vk_arr) {
        Ok(key) => ed25519_dalek::Verifier::verify(
            &key,
            msg.as_slice(),
            &ed25519_dalek::Signature::from_bytes(sig_arr),
        ).is_ok(),
        Err(_) => false,
    }
}

/// Relies on isocountry::CountryCode::for_alpha2_caseless: whether a
/// two-letter string names a country depends on its letters alone.
#[verifier::external_body]
pub(crate) fn country_code_known(a: u8, b: u8) -> (r: bool)
    ensures
        r == iso_alpha2_caseless(a, b),
{
    let buf = [a, b];
    match core::str::from_utf8(&buf) {
        Ok(s) => isocountry::CountryCode::for_alpha2_caseless(s).is_ok(),
        Err(_) => false,
    }
}

/// Relies on rand::random: draws a fresh value; nothing is promised of it.
#[verifier::external_body]
pub(crate) fn random_u128() -> u128 {
    rand::random()
}

} // verus!
