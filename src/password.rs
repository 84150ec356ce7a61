//! Password hashing and verification with Argon2 in its default configuration.

use argon2::password_hash::rand_core::OsRng;
use argon2::password_hash::SaltString;
use argon2::{Argon2, PasswordHash, PasswordHasher, PasswordVerifier};
use vstd::prelude::*;
use vstd::utf8::encode_utf8;

use crate::auth::Error;

verus! {

/// Whether `PasswordHash::new` accepts `digest` as a PHC string.
pub uninterp spec fn digest_parses(digest: Seq<char>) -> bool;

/// Whether `Argon2::default().verify_password` accepts `password` against the
/// parsed form of `digest`.
pub uninterp spec fn argon2_accepts(password: Seq<u8>, digest: Seq<char>) -> bool;

/// The outcome of checking `password` against `digest`: a digest that does
/// not parse is an error; otherwise whether the password reproduces it.
pub open spec fn password_check(password: Seq<u8>, digest: Seq<char>) -> Result<bool, Error> {
    if digest_parses(digest) {
        Ok(argon2_accepts(password, digest))
    } else {
        Err(Error::MalformedDigest)
    }
}

/// Relies on `SaltString::generate(&mut OsRng)` for a fresh random salt, on
/// `Argon2::default().hash_password`, and on the PHC string form of its
/// result (`Display` of `PasswordHash`). `verify_password` recomputes the hash
/// with the algorithm, version, parameters and salt embedded in the string,
/// so the string parses and the same password is accepted against it.
/// With the generated 16-byte salt, the only error `hash_password` returns
/// is `PwdTooLong`, for a password over 0xFFFF_FFFF bytes. `OsRng` panics
/// only when the operating system's random source fails.
#[verifier::external_body]
fn argon2_hash(password: &[u8]) -> (r: Option<String>)
    ensures
        r matches Some(d) ==> digest_parses(d@) && argon2_accepts(password@, d@),
        password@.len() <= 0xFFFF_FFFF ==> r is Some,
{
    let salt = SaltString::generate(&mut OsRng);
    Argon2::default().hash_password(password, &salt).ok().map(|h| h.to_string())
}

/// Relies on `PasswordHash::new`, which parses a PHC string, and on
/// `Argon2::default().verify_password`, which recomputes the hash from the
/// parsed parameters and salt; any error of the latter counts as a mismatch.
/// A digest whose memory cost cannot be allocated aborts the process; the
/// digests that `argon2_hash` makes carry the default cost.
#[verifier::external_body]
fn argon2_verify(password: &[u8], digest: &str) -> (r: Option<bool>)
    ensures
        r is None <==> !digest_parses(digest@),
        r matches Some(b) ==> b == argon2_accepts(password@, digest@),
{
    match PasswordHash::new(digest) {
        Ok(hash) => Some(Argon2::default().verify_password(password, &hash).is_ok()),
        Err(_) => None,
    }
}

/// Hashes `password` under a fresh random salt. Two calls on one password
/// give different digests; each one is accepted for that password. Only a
/// password longer than Argon2 accepts fails.
pub fn hash_password(password: &str) -> (r: Result<String, Error>)
    ensures
        encode_utf8(password@).len() <= 0xFFFF_FFFF ==> r is Ok,
        r matches Ok(d) ==> password_check(encode_utf8(password@), d@) == Ok::<bool, Error>(true),
        r matches Err(e) ==> e == Error::HashError,
{
    match argon2_hash(password.as_bytes()) {
        Some(d) => Ok(d),
        None => Err(Error::HashError),
    }
}

/// Checks `password` against `digest`: `Ok(true)` when it reproduces the
/// digest, `Ok(false)` when it does not, `Err(MalformedDigest)` when the
/// digest cannot be parsed.
pub fn verify_password(password: &str, digest: &str) -> (r: Result<bool, Error>)
    ensures
        r == password_check(encode_utf8(password@), digest@),
{
    match argon2_verify(password.as_bytes(), digest) {
        Some(b) => Ok(b),
        None => Err(Error::MalformedDigest),
    }
}

} // verus!
