//! Cryptographic and encoding primitives from outside crates: HMAC-SHA256
//! and SHA-256 (hmac, sha2), unpadded Base32 (data-encoding), hexadecimal
//! (hex), operating-system randomness (rand) and Argon2 password hashing
//! (argon2). Deterministic results are named by uninterpreted functions of
//! their inputs; the contracts add only facts the crates document.

use vstd::prelude::*;
use hmac::Mac;
use sha2::Digest;
use rand::RngCore;
use argon2::{PasswordHasher, PasswordVerifier};

verus! {

/// HMAC-SHA256 of `msg` under `key`.
pub uninterp spec fn spec_hmac_sha256(key: Seq<u8>, msg: Seq<u8>) -> Seq<u8>;

/// SHA-256 digest of `data`.
pub uninterp spec fn spec_sha256(data: Seq<u8>) -> Seq<u8>;

/// Unpadded RFC 4648 Base32 (`data_encoding::BASE32_NOPAD`) of `data`.
pub uninterp spec fn spec_base32_encode(data: Seq<u8>) -> Seq<char>;

/// `data_encoding::BASE32_NOPAD.decode` of `input`: `None` on any error.
pub uninterp spec fn spec_base32_decode(input: Seq<u8>) -> Option<Seq<u8>>;

/// `hex::decode` of `s`: `None` on any error.
pub uninterp spec fn spec_hex_decode(s: Seq<char>) -> Option<Seq<u8>>;

/// Argon2 verification of `secret` against the PHC string `hash`: `None`
/// when `hash` does not parse as a password hash.
pub uninterp spec fn spec_argon2_verify(hash: Seq<char>, secret: Seq<u8>) -> Option<bool>;

/// The message of the error `argon2::PasswordHash::new` gives for `hash`.
pub uninterp spec fn spec_phc_parse_error(hash: Seq<char>) -> Seq<char>;

/// A symbol of the Base32 alphabet `A`–`Z`, `2`–`7`.
pub open spec fn spec_base32_symbol(c: char) -> bool {
    ('A' <= c && c <= 'Z') || ('2' <= c && c <= '7')
}

/// The bytes of a string of ASCII characters.
pub open spec fn spec_ascii_bytes(s: Seq<char>) -> Seq<u8> {
    s.map_values(|c: char| c as u8)
}

/// Lowercase hexadecimal digit of a value below 16.
pub open spec fn spec_hex_digit(v: int) -> char {
    if v < 10 { (('0' as int) + v) as char } else { (('a' as int) + v - 10) as char }
}

/// Lowercase hexadecimal of `data`, two digits per byte (`hex::encode`).
pub open spec fn spec_hex_lower(data: Seq<u8>) -> Seq<char>
    decreases data.len(),
{
    if data.len() == 0 {
        seq![]
    } else {
        seq![spec_hex_digit(data[0] as int / 16), spec_hex_digit(data[0] as int % 16)] + spec_hex_lower(data.drop_first())
    }
}

/// `hmac::Hmac::<sha2::Sha256>`: `new_from_slice(key)` (which accepts keys of
/// any length), `update(msg)`, `finalize().into_bytes()`. A 32-byte MAC.
#[verifier::external_body]
pub fn hmac_sha256(key: &[u8], msg: &[u8]) -> (r: Vec<u8>)
    ensures
        r@ == spec_hmac_sha256(key@, msg@),
        r@.len() == 32,
{
    let mut mac = hmac::Hmac::<sha2::Sha256>::new_from_slice(key).expect("HMAC takes keys of any length");
    mac.update(msg);
    mac.finalize().into_bytes().to_vec()
}

/// `sha2::Sha256::digest`: a 32-byte digest.
#[verifier::external_body]
pub fn sha256_digest(data: &[u8]) -> (r: Vec<u8>)
    ensures
        r@ == spec_sha256(data@),
        r@.len() == 32,
{
    sha2::Sha256::digest(data).to_vec()
}

/// `data_encoding::BASE32_NOPAD.encode`. The crate documents the alphabet,
/// RFC 4648 lengths (no padding: `ceil(8n / 5)` symbols) and that decoding
/// an encoding gives the data back.
#[verifier::external_body]
pub fn base32_encode(data: &[u8]) -> (r: String)
    requires
        data@.len() <= 1_000_000,
    ensures
        r@ == spec_base32_encode(data@),
        r@.len() == (8 * data@.len() + 4) / 5,
        forall|i: int| 0 <= i < r@.len() ==> spec_base32_symbol(#[trigger] r@[i]),
        spec_base32_decode(spec_ascii_bytes(r@)) == Some(data@),
{
    data_encoding::BASE32_NOPAD.encode(data)
}

/// `data_encoding::BASE32_NOPAD.decode`, with the error dropped.
#[verifier::external_body]
pub fn base32_decode(input: &[u8]) -> (r: Option<Vec<u8>>)
    requires
        input@.len() <= 1_000_000,
    ensures
        match r {
            Some(v) => spec_base32_decode(input@) == Some(v@),
            None => spec_base32_decode(input@) is None,
        },
{
    data_encoding::BASE32_NOPAD.decode(input).ok()
}

/// `hex::encode`: lowercase hexadecimal, two digits per byte.
#[verifier::external_body]
pub fn hex_encode(data: &[u8]) -> (r: String)
    ensures
        r@ == spec_hex_lower(data@),
{
    hex::encode(data)
}

/// `hex::decode`, with the error dropped.
#[verifier::external_body]
pub fn hex_decode(s: &str) -> (r: Option<Vec<u8>>)
    ensures
        match r {
            Some(v) => spec_hex_decode(s@) == Some(v@),
            None => spec_hex_decode(s@) is None,
        },
{
    hex::decode(s).ok()
}

/// Four bytes from the operating system's generator (`rand::rngs::OsRng`,
/// `RngCore::fill_bytes`).
#[verifier::external_body]
pub fn random_bytes_4() -> (r: Vec<u8>)
    ensures
        r@.len() == 4,
{
    let mut b = [0u8; 4];
    rand::rngs::OsRng.fill_bytes(&mut b);
    b.to_vec()
}

/// Argon2id (`argon2::Argon2::default().hash_password`) of `secret` with a
/// fresh random salt (`SaltString::generate` over `OsRng`), as a PHC string.
/// The salt is random, so the hash is not named; what the password-hash
/// traits document is stated: verifying the same secret against a hash made
/// from it succeeds. The error text is not stated.
#[verifier::external_body]
pub fn argon2_hash_password(secret: &[u8]) -> (r: Result<String, String>)
    ensures
        r matches Ok(h) ==> spec_argon2_verify(h@, secret@) == Some(true),
{
    let salt = argon2::password_hash::SaltString::generate(&mut rand::rngs::OsRng);
    argon2::Argon2::default()
        .hash_password(secret, &salt)
        .map(|h| h.to_string())
        .map_err(|e| e.to_string())
}

/// `argon2::PasswordHash::new(hash)` and, when it parses,
/// `Argon2::default().verify_password(secret, &parsed).is_ok()`.
#[verifier::external_body]
pub fn argon2_verify(hash: &str, secret: &[u8]) -> (r: Result<bool, String>)
    ensures
        match r {
            Ok(b) => spec_argon2_verify(hash@, secret@) == Some(b),
            Err(e) => spec_argon2_verify(hash@, secret@) is None && e@ == spec_phc_parse_error(hash@),
        },
{
    match argon2::PasswordHash::new(hash) {
        Ok(parsed) => Ok(argon2::Argon2::default().verify_password(secret, &parsed).is_ok()),
        Err(e) => Err(e.to_string()),
    }
}

} // verus!
