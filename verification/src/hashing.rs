//! Password hashing and verification, built on the argon2 crate.
//!
//! A stored hash is one self-describing string holding the salt, the
//! parameters and the digest. Verification recomputes the digest from the
//! embedded salt and parameters and compares in constant time; a malformed
//! stored hash counts as a mismatch, never as an error that skips the check.

use vstd::prelude::*;
use argon2::password_hash::rand_core::OsRng;
use argon2::password_hash::SaltString;
use argon2::Argon2;
use argon2::PasswordHash;
use argon2::PasswordHasher;
use argon2::PasswordVerifier;

verus! {

/// Whether argon2's verifier accepts `password` against the stored string
/// `hash`: the digest recomputed from the salt and parameters embedded in
/// `hash` equals the digest embedded in `hash`. A string that does not parse
/// as a hash accepts no password. The result depends on the two strings
/// alone.
pub uninterp spec fn password_matches(hash: Seq<char>, password: Seq<char>) -> bool;

/// The most characters a password handed to the hasher may hold: at four
/// UTF-8 bytes a character this stays under argon2's byte limit on
/// passwords.
pub const MAX_PASSWORD_CHARS: usize = 0x3FFF_FFFF;

/// Relies on argon2's `PasswordHasher::hash_password` with a fresh random
/// salt from `SaltString::generate`: the produced PHC string verifies
/// against the same password. With the default parameters, a generated salt
/// and a password under argon2's length limit the call cannot fail, so the
/// `unwrap` cannot panic.
#[verifier::external_body]
pub(crate) fn hash_password(password: &str) -> (r: String)
    requires
        password@.len() <= MAX_PASSWORD_CHARS,
    ensures
        password_matches(r@, password@),
{
    let salt = SaltString::generate(&mut OsRng);
    Argon2::default()
        .hash_password(password.as_bytes(), &salt)
        .unwrap()
        .to_string()
}

/// Relies on argon2's `PasswordVerifier::verify_password`: it recomputes the
/// digest from the hash string's own salt and parameters and compares, so
/// the result is a function of the two strings alone. A stored string that
/// `PasswordHash::new` cannot parse yields `false`.
#[verifier::external_body]
pub(crate) fn verify_password(password: &str, hash: &str) -> (r: bool)
    ensures
        r == password_matches(hash@, password@),
{
    match PasswordHash::new(hash) {
        Ok(parsed) => Argon2::default().verify_password(password.as_bytes(), &parsed).is_ok(),
        Err(_) => false,
    }
}

} // verus!
