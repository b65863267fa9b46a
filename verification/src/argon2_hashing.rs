//! Password hashing with Argon2.

use argon2::password_hash::rand_core::OsRng;
use argon2::password_hash::{PasswordHasher, SaltString};
use argon2::{Argon2, PasswordHash, PasswordVerifier};
use vstd::prelude::*;

verus! {

/// The error of the `password-hash` crate, as `argon2` hands it on.
#[verifier::external_type_specification]
#[verifier::external_body]
pub struct ExPasswordHashError(argon2::password_hash::Error);

/// What Argon2 says of a password and a stored hash: `None` where the stored
/// text cannot be read as a password hash, else whether the password is the
/// one that was hashed.
pub uninterp spec fn argon2_accepts(password: Seq<char>, hashed_password: Seq<char>) -> Option<bool>;

/// Why hashing or checking a password failed, in the words of the hasher.
#[derive(Debug, Clone)]
pub struct HashingError {
    pub message: String,
}

impl HashingError {
    /// The hasher's words.
    pub fn to_string(&self) -> (text: String)
        ensures
            text == self.message,
    {
        self.message.clone()
    }
}

/// Hashes the password with `Argon2::default().hash_password` under a salt
/// that `SaltString::generate` draws from the system's random source, and
/// hands back the hash as text. The salt is random, so the text is not fixed
/// by the password. What is claimed is what the crate's documentation shows
/// of every such text: read back and checked against the same password, it
/// is accepted. `SaltString::generate` panics on a machine whose random source
/// fails.
#[verifier::external_body]
fn argon2_hash(password: &str) -> (hashed: Result<String, argon2::password_hash::Error>)
    ensures
        match hashed {
            Ok(text) => argon2_accepts(password@, text@) == Some(true),
            Err(_) => true,
        },
{
    let salt = SaltString::generate(OsRng);
    match Argon2::default().hash_password(password.as_bytes(), &salt) {
        Ok(hash) => Ok(hash.to_string()),
        Err(e) => Err(e),
    }
}

/// Reads the stored text with `PasswordHash::new` and checks the password
/// against it with `Argon2::default().verify_password`. An error is the
/// reader's: the stored text is no password hash. Otherwise the answer says
/// whether the check succeeded. Both depend on the two texts alone.
#[verifier::external_body]
fn argon2_verify(password: &str, hashed_password: &str) -> (verdict: Result<
    bool,
    argon2::password_hash::Error,
>)
    ensures
        match verdict {
            Ok(accepted) => argon2_accepts(password@, hashed_password@) == Some(accepted),
            Err(_) => argon2_accepts(password@, hashed_password@) is None,
        },
{
    match PasswordHash::new(hashed_password) {
        Ok(parsed) => Ok(Argon2::default().verify_password(password.as_bytes(), &parsed).is_ok()),
        Err(e) => Err(e),
    }
}

/// The error in words, as its `Display` writes it.
#[verifier::external_body]
fn describe(error: &argon2::password_hash::Error) -> (message: String) {
    error.to_string()
}

/// The answer to a hashing, given what the hasher said: its text where it
/// made one, and its error in its own words where it did not.
pub fn hash_answer(outcome: Result<String, argon2::password_hash::Error>) -> (hashed: Result<
    String,
    HashingError,
>)
    ensures
        match outcome {
            Ok(text) => hashed == Ok::<String, HashingError>(text),
            Err(_) => hashed is Err,
        },
{
    match outcome {
        Ok(text) => Ok(text),
        Err(e) => Err(HashingError { message: describe(&e) }),
    }
}

/// The password's hash, under a fresh random salt: a text against which the
/// password verifies. Whether hashing succeeds is the hasher's to say.
pub fn hash(password: String) -> (hashed: Result<String, HashingError>)
    ensures
        match hashed {
            Ok(text) => argon2_accepts(password@, text@) == Some(true),
            Err(_) => true,
        },
{
    hash_answer(argon2_hash(password.as_str()))
}

/// Whether the password is the one behind the stored hash; an error where
/// the stored text is no password hash.
pub fn verify(password: String, hashed_password: String) -> (verdict: Result<bool, HashingError>)
    ensures
        match verdict {
            Ok(accepted) => argon2_accepts(password@, hashed_password@) == Some(accepted),
            Err(_) => argon2_accepts(password@, hashed_password@) is None,
        },
{
    match argon2_verify(password.as_str(), hashed_password.as_str()) {
        Ok(accepted) => Ok(accepted),
        Err(e) => Err(HashingError { message: describe(&e) }),
    }
}

} // verus!
