//! Salted password hashes, computed and checked by Argon2.
//!
//! The two functions of this module are not verified: each states what the
//! `argon2` crate does, and everything that decides on their results is
//! verified against those statements.

use vstd::prelude::*;
use argon2::password_hash::rand_core::OsRng;
use argon2::password_hash::{PasswordHash, PasswordHasher, PasswordVerifier, SaltString};
use argon2::Argon2;

verus! {

/// What `Argon2::default()` finds when `password` is checked against the
/// stored hash string `hash`: `Ok(true)` when the password matches,
/// `Ok(false)` when it does not, and the parser's message when `hash` is
/// not a hash string.
pub uninterp spec fn argon2_outcome(hash: Seq<char>, password: Seq<char>) -> Result<
    bool,
    Seq<char>,
>;

/// Checks `password` against the stored hash string `hash`.
///
/// Calls `PasswordHash::new` on `hash` and, where that parses,
/// `PasswordVerifier::verify_password` of `Argon2::default()`, which hashes
/// `password` again with the salt and the parameters that `hash` names and
/// compares. The contract claims that the answer depends on the two texts
/// alone; it names that answer [`argon2_outcome`] and says nothing more of
/// it. The time and the memory that the call takes are those that the
/// parameters in `hash` ask for.
#[verifier::external_body]
pub(crate) fn check_password(hash: &str, password: &str) -> (r: Result<bool, String>)
    ensures
        match r {
            Ok(verdict) => argon2_outcome(hash@, password@) == Ok::<bool, Seq<char>>(verdict),
            Err(message) => argon2_outcome(hash@, password@) == Err::<bool, Seq<char>>(message@),
        },
{
    match PasswordHash::new(hash) {
        Ok(parsed) => Ok(Argon2::default().verify_password(password.as_bytes(), &parsed).is_ok()),
        Err(e) => Err(e.to_string()),
    }
}

/// Hashes `password` under a fresh random salt.
///
/// Calls `SaltString::generate` with the operating system's generator and
/// `PasswordHasher::hash_password` of `Argon2::default()`, and writes the
/// result as a hash string. The salt is random, so the contract claims only
/// what holds of every hash that comes back: checked against the same
/// password, it matches. On failure the message of the crate's error comes
/// back. `SaltString::generate` panics where the operating system cannot
/// supply random bytes.
#[verifier::external_body]
pub(crate) fn hash_password(password: &str) -> (r: Result<String, String>)
    ensures
        match r {
            Ok(hash) => argon2_outcome(hash@, password@) == Ok::<bool, Seq<char>>(true),
            Err(_) => true,
        },
{
    let salt = SaltString::generate(&mut OsRng);
    match Argon2::default().hash_password(password.as_bytes(), &salt) {
        Ok(hash) => Ok(hash.to_string()),
        Err(e) => Err(e.to_string()),
    }
}

} // verus!
