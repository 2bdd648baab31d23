//! Keyed password hashing and verification.
//!
//! A password is hashed with a process-wide secret and a fresh random salt;
//! the encoded hash string carries the salt and the cost parameters, so
//! verification is a deterministic function of the password, the encoded
//! hash and the secret.  The checking itself is delegated to an Argon2
//! implementation; its verdict is given a name, `argon2_verdict`, and every
//! contract in this module speaks of that name exactly.

use vstd::prelude::*;

verus! {

/// The error of this module: hashing and verification fail only on a
/// catastrophic environment problem or on a corrupted stored hash, and
/// callers treat either as "verification unavailable".
#[derive(Debug, Clone, Copy, PartialEq, Eq, Structural)]
pub enum HashError {
    VerifierUnavailable,
}

/// The verdict of `argon2::verify_encoded_ext` on a password, an encoded
/// hash and a secret: `None` when the encoded hash cannot be decoded (or
/// carries unusable cost parameters), otherwise `Some(b)` where `b` says
/// whether the hash recomputed from the password and the secret matches.
/// The call reads nothing but its arguments, so its result is a function
/// of them alone.
pub uninterp spec fn argon2_verdict(
    password: Seq<char>,
    hash: Seq<char>,
    secret: Seq<char>,
) -> Option<bool>;

/// The longest password or secret, in characters, for which hashing is
/// promised to succeed: the underlying implementation caps its inputs at
/// `u32::MAX` bytes, and a character occupies at most four bytes.
pub const MAX_HASH_INPUT: usize = 0x3FFF_FFFF;

#[verifier::external_type_specification]
#[verifier::external_body]
pub struct ExArgon2Error(argon2::Error);

/// Relies on `argon2::hash_encoded` (rust-argon2): with the crate's
/// `original` cost preset, a salt of 8 to `u32::MAX` bytes, and a password
/// and secret of at most `u32::MAX` bytes each, it returns the encoded
/// hash, and `argon2::verify_encoded_ext` on that hash with the same
/// password and secret decodes it and recomputes the identical digest.
#[verifier::external_body]
fn argon2_hash_encoded(password: &str, salt: &Vec<u8>, secret: &str) -> (r: Result<
    String,
    argon2::Error,
>)
    ensures
        (r matches Ok(h) ==> argon2_verdict(password@, h@, secret@) == Some(true)),
        (8 <= salt@.len() <= 0xFFFF_FFFFusize && password@.len() <= MAX_HASH_INPUT
            && secret@.len() <= MAX_HASH_INPUT) ==> r is Ok,
{
    let config = argon2::Config { secret: secret.as_bytes(), ..argon2::Config::original() };
    argon2::hash_encoded(password.as_bytes(), salt.as_slice(), &config)
}

/// Relies on `argon2::verify_encoded_ext` (rust-argon2): it decodes the
/// encoded hash (returning its decoding error when that fails), recomputes
/// the digest from the password and the secret under the decoded salt and
/// cost parameters, and compares the two digests in constant time.
#[verifier::external_body]
fn argon2_verify_encoded(hash: &str, password: &str, secret: &str) -> (r: Result<
    bool,
    argon2::Error,
>)
    ensures
        (match argon2_verdict(password@, hash@, secret@) {
            Some(b) => r == Ok::<bool, argon2::Error>(b),
            None => r is Err,
        }),
{
    argon2::verify_encoded_ext(hash, password.as_bytes(), secret.as_bytes(), &[])
}

/// Relies on `rand::random`: sixteen bytes from the thread-local generator;
/// nothing is assumed of their values.
#[verifier::external_body]
pub(crate) fn random_bytes16() -> (r: Vec<u8>)
    ensures
        r@.len() == 16,
{
    rand::random::<[u8; 16]>().to_vec()
}

/// Hashes `password` under the process-wide `secret` with a fresh sixteen
/// byte random salt.  Every hash it returns verifies against the same
/// password and secret; two calls on the same password may return
/// different encodings, since the salt is drawn anew each time.
pub fn generate_hash(password: &String, secret: &String) -> (r: Result<String, HashError>)
    ensures
        (r matches Ok(h) ==> argon2_verdict(password@, h@, secret@) == Some(true)),
        (password@.len() <= MAX_HASH_INPUT && secret@.len() <= MAX_HASH_INPUT) ==> r is Ok,
{
    let salt = random_bytes16();
    match argon2_hash_encoded(password.as_str(), &salt, secret.as_str()) {
        Ok(h) => Ok(h),
        Err(_) => Err(HashError::VerifierUnavailable),
    }
}

/// Checks `password` against a stored encoded `hash` under the process-wide
/// `secret`.  Returns `Ok(false)` (never an error) for a well-formed hash
/// that does not match, and `Err(VerifierUnavailable)` exactly when the
/// stored hash is corrupted beyond decoding.
pub fn verify_hash(hash: &String, password: &String, secret: &String) -> (r: Result<
    bool,
    HashError,
>)
    ensures
        r == (match argon2_verdict(password@, hash@, secret@) {
            Some(b) => Ok::<bool, HashError>(b),
            None => Err::<bool, HashError>(HashError::VerifierUnavailable),
        }),
{
    match argon2_verify_encoded(hash.as_str(), password.as_str(), secret.as_str()) {
        Ok(b) => Ok(b),
        Err(_) => Err(HashError::VerifierUnavailable),
    }
}

} // verus!
