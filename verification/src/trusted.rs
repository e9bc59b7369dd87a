//! The boundary to the outside crates the core leans on: hex encoding of
//! byte strings, the content-hash and signature primitives, the byte-level
//! key decoder and the wall clock.
//!
//! Everything else in the crate is verified against the contracts stated
//! here, so each function below carries a note naming the outside function
//! it relies on.

use vstd::prelude::*;
use vstd::string::StringSliceAdditionalSpecFns;
use ed25519_dalek::Signer;
use ed25519_dalek::Verifier;
use sha3::Digest;

verus! {

/// Whether `b` is the ASCII code of a hex digit, in either case.
pub open spec fn is_hex_digit_byte(b: u8) -> bool {
    (48 <= b && b <= 57)  // '0'..='9'
    || (97 <= b && b <= 102)  // 'a'..='f'
    || (65 <= b && b <= 70)  // 'A'..='F'
}

/// The numeric value of the hex digit with ASCII code `b`.
pub open spec fn hex_digit_value(b: u8) -> u8
    recommends
        is_hex_digit_byte(b),
{
    if 48 <= b && b <= 57 {
        (b - 48) as u8
    } else if 97 <= b && b <= 102 {
        (b - 97 + 10) as u8
    } else {
        (b - 65 + 10) as u8
    }
}

/// Whether `bs` spells a byte string in hex: even length, hex digits only.
pub open spec fn valid_hex_bytes(bs: Seq<u8>) -> bool {
    bs.len() % 2 == 0 && (forall|i: int| 0 <= i < bs.len() ==> is_hex_digit_byte(#[trigger] bs[i]))
}

/// The byte string spelled by the hex digits `bs`, two digits per byte.
pub open spec fn hex_decoded(bs: Seq<u8>) -> Seq<u8>
    recommends
        valid_hex_bytes(bs),
{
    Seq::new(bs.len() / 2, |i: int| (hex_digit_value(bs[2 * i]) * 16 + hex_digit_value(bs[2 * i + 1])) as u8)
}

/// The lowercase hex digit for a value below 16.
pub open spec fn hex_digit_char(v: u8) -> char
    recommends
        v < 16,
{
    if v == 0 { '0' } else if v == 1 { '1' } else if v == 2 { '2' } else if v == 3 { '3' }
    else if v == 4 { '4' } else if v == 5 { '5' } else if v == 6 { '6' } else if v == 7 { '7' }
    else if v == 8 { '8' } else if v == 9 { '9' } else if v == 10 { 'a' } else if v == 11 { 'b' }
    else if v == 12 { 'c' } else if v == 13 { 'd' } else if v == 14 { 'e' } else { 'f' }
}

/// The lowercase hex spelling of `bs`, two digits per byte.
pub open spec fn hex_encoded(bs: Seq<u8>) -> Seq<char> {
    Seq::new(
        2 * bs.len(),
        |i: int| if i % 2 == 0 {
            hex_digit_char(bs[i / 2] / 16)
        } else {
            hex_digit_char(bs[i / 2] % 16)
        },
    )
}

/// Relies on hex::encode: every byte becomes exactly two lowercase hex
/// digits, high nibble first.
#[verifier::external_body]
pub fn hex_encode(data: &[u8]) -> (r: String)
    ensures
        r@ == hex_encoded(data@),
{
    hex::encode(data)
}

/// Relies on hex::decode: it accepts exactly the even-length strings of hex
/// digits (either case) and decodes two digits into one byte, high nibble
/// first.
#[verifier::external_body]
pub fn hex_decode(data: &str) -> (r: Option<Vec<u8>>)
    ensures
        match r {
            Some(v) => valid_hex_bytes(data.spec_bytes()) && v@ == hex_decoded(data.spec_bytes()),
            None => !valid_hex_bytes(data.spec_bytes()),
        },
{
    match hex::decode(data) {
        Ok(v) => Some(v),
        Err(_) => None,
    }
}

/// The 32-byte content hash of a byte string.
pub uninterp spec fn sha3_256_of(data: Seq<u8>) -> Seq<u8>;

/// Relies on sha3::Sha3_256: the 32-byte digest is a function of the input
/// bytes alone, stable across processes.
#[verifier::external_body]
pub fn sha3_256(data: &[u8]) -> (r: Vec<u8>)
    ensures
        r@ == sha3_256_of(data@),
        r@.len() == 32,
{
    sha3::Sha3_256::digest(data).to_vec()
}

/// The 32-byte public key derived from 32 secret-key bytes.
pub uninterp spec fn ed25519_public_key_of(secret: Seq<u8>) -> Seq<u8>;

/// The 64-byte signature over a message by the key with the given secret
/// bytes.
pub uninterp spec fn ed25519_signature_of(secret: Seq<u8>, message: Seq<u8>) -> Seq<u8>;

/// Whether a signature is accepted for a message under a public key.
pub uninterp spec fn ed25519_verifies(public_key: Seq<u8>, message: Seq<u8>, signature: Seq<u8>) -> bool;

/// Relies on ed25519_dalek::SigningKey::from_bytes and verifying_key: the
/// public key is derived from the 32 secret-key bytes alone and is 32 bytes.
#[verifier::external_body]
pub fn ed25519_public_key(secret: &[u8]) -> (r: Vec<u8>)
    requires
        secret@.len() == 32,
    ensures
        r@ == ed25519_public_key_of(secret@),
        r@.len() == 32,
{
    let bytes: [u8; 32] = secret.try_into().unwrap();
    let key = ed25519_dalek::SigningKey::from_bytes(&bytes);
    key.verifying_key().to_bytes().to_vec()
}

/// Relies on ed25519_dalek::Signer::sign for SigningKey: signing follows
/// RFC 8032, a deterministic function of the secret key and the message,
/// yielding 64 bytes that the crate's own verification accepts under the
/// derived public key.
#[verifier::external_body]
pub fn ed25519_sign(secret: &[u8], message: &[u8]) -> (r: Vec<u8>)
    requires
        secret@.len() == 32,
    ensures
        r@ == ed25519_signature_of(secret@, message@),
        r@.len() == 64,
        ed25519_verifies(ed25519_public_key_of(secret@), message@, r@),
{
    let bytes: [u8; 32] = secret.try_into().unwrap();
    let key = ed25519_dalek::SigningKey::from_bytes(&bytes);
    key.sign(message).to_bytes().to_vec()
}

/// Relies on ed25519_dalek::Verifier::verify for VerifyingKey: acceptance is
/// a deterministic function of the key, message and signature bytes; bytes
/// that do not parse as a key or signature are never accepted.
#[verifier::external_body]
pub fn ed25519_verify(public_key: &[u8], message: &[u8], signature: &[u8]) -> (r: bool)
    ensures
        r == ed25519_verifies(public_key@, message@, signature@),
{
    let pk_bytes: [u8; 32] = match public_key.try_into() {
        Ok(b) => b,
        Err(_) => return false,
    };
    let pk = match ed25519_dalek::VerifyingKey::from_bytes(&pk_bytes) {
        Ok(k) => k,
        Err(_) => return false,
    };
    let sig_bytes: [u8; 64] = match signature.try_into() {
        Ok(b) => b,
        Err(_) => return false,
    };
    let sig = ed25519_dalek::Signature::from_bytes(&sig_bytes);
    pk.verify(message, &sig).is_ok()
}

/// Relies on bincode::deserialize for [u8; 32]: the default configuration
/// reads the 32 array elements verbatim, allows trailing bytes, and fails
/// exactly when fewer than 32 bytes are given.
#[verifier::external_body]
pub fn bincode_key_bytes(data: &[u8]) -> (r: Option<Vec<u8>>)
    ensures
        match r {
            Some(v) => data@.len() >= 32 && v@ == data@.subrange(0, 32),
            None => data@.len() < 32,
        },
{
    match bincode::deserialize::<[u8; 32]>(data) {
        Ok(arr) => Some(arr.to_vec()),
        Err(_) => None,
    }
}

/// Relies on chrono::Utc::now and timestamp: the current wall-clock time as
/// Unix seconds, of which nothing can be promised.
#[verifier::external_body]
pub fn current_unix_seconds() -> (r: i64) {
    chrono::Utc::now().timestamp()
}

/// The string `s` with every occurrence of `from` replaced by `to`.
pub uninterp spec fn str_replace_of(s: Seq<char>, from: Seq<char>, to: Seq<char>) -> Seq<char>;

/// Relies on str::replace: the result is a function of the three strings
/// alone.
#[verifier::external_body]
pub fn str_replace(s: &str, from: &str, to: &str) -> (r: String)
    ensures
        r@ == str_replace_of(s@, from@, to@),
{
    s.replace(from, to)
}

} // verus!
