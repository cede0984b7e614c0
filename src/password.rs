use vstd::prelude::*;
use argon2::password_hash::rand_core::OsRng;
use argon2::password_hash::SaltString;
use crate::error::error_message;
use argon2::{Argon2, PasswordHash, PasswordHasher, PasswordVerifier};

verus! {

#[verifier::external_type_specification]
#[verifier::external_body]
pub struct ExSaltString(SaltString);

/// The fewest bytes that a password may have.
pub const MIN_PASSWORD_BYTES: usize = 8;

/// Whether argon2 accepts `password` against the PHC-format hash `hash`.
pub uninterp spec fn argon2_accepts(hash: Seq<char>, password: Seq<char>) -> bool;

/// Relies on `SaltString::generate` with `OsRng`: a random salt.
#[verifier::external_body]
fn random_salt() -> (r: SaltString) {
    SaltString::generate(&mut OsRng)
}

/// Relies on `PasswordHasher::hash_password` of `Argon2::default()`: the hash of
/// `password` with `salt`, in PHC string format, or nothing where hashing failed.
#[verifier::external_body]
fn argon2_hash(password: &str, salt: &SaltString) -> (r: Option<String>) {
    Argon2::default().hash_password(password.as_bytes(), salt).ok().map(|h| h.to_string())
}

/// Relies on `PasswordHash::new` and `PasswordVerifier::verify_password` of
/// `Argon2::default()`: whether `password` matches `hash`, a hash that does not
/// parse matching nothing; the answer depends on the two texts alone.
#[verifier::external_body]
fn argon2_verify(hash: &str, password: &str) -> (r: bool)
    ensures
        r == argon2_accepts(hash@, password@),
{
    match PasswordHash::new(hash) {
        Ok(parsed) => Argon2::default().verify_password(password.as_bytes(), &parsed).is_ok(),
        Err(_) => false,
    }
}

/// A password is taken when it has at least eight bytes.
pub fn validate_password(password: &str) -> (r: Result<(), anyhow::Error>)
    ensures
        r is Ok <==> password.len() >= MIN_PASSWORD_BYTES,
{
    if password.len() < MIN_PASSWORD_BYTES {
        Err(error_message("password too short"))
    } else {
        Ok(())
    }
}

/// The argon2 hash of `password`, under a fresh random salt.
pub fn hash_password(password: &str) -> (r: Result<String, anyhow::Error>) {
    let salt = random_salt();
    match argon2_hash(password, &salt) {
        Some(hash) => Ok(hash),
        None => Err(error_message("password hashing failed")),
    }
}

/// Whether `password` matches the stored hash `stored_hash`.
pub fn verify_password(stored_hash: &str, password: &str) -> (r: bool)
    ensures
        r == argon2_accepts(stored_hash@, password@),
{
    argon2_verify(stored_hash, password)
}

} // verus!
