//! Password hashing and verification with Argon2id (memory 4096 KiB,
//! 3 passes, 1 lane), stored in PHC string format.

use vstd::prelude::*;
use vstd::utf8::encode_utf8;
use argon2::password_hash::rand_core::OsRng;
use argon2::password_hash::{PasswordHash, PasswordHasher, PasswordVerifier, SaltString};
use argon2::{Algorithm, Argon2, Params, Version};
use crate::error::TimeError;

verus! {

/// What Argon2 says of a stored PHC hash string and a password: `None` when
/// the hash string does not parse, else whether the password matches it.
pub uninterp spec fn argon2_check(hash: Seq<char>, password: Seq<char>) -> Option<bool>;

/// `PasswordHash::new(hash)` then `Argon2::verify_password`. Claimed: the
/// outcome is the named function `argon2_check` of the two texts (the
/// verification recomputes the hash with the algorithm, version, parameters
/// and salt recorded in the hash string, so it depends on nothing else).
#[verifier::external_body]
fn argon2_verify(hash: &str, password: &str) -> (r: Option<bool>)
    ensures
        r == argon2_check(hash@, password@),
{
    let parsed = PasswordHash::new(hash).ok()?;
    Some(Argon2::default().verify_password(password.as_bytes(), &parsed).is_ok())
}

/// Memory cost of password hashing, KiB.
pub const ARGON2_MEMORY_KIB: u32 = 4096;

/// Passes of password hashing.
pub const ARGON2_PASSES: u32 = 3;

/// Lanes of password hashing.
pub const ARGON2_LANES: u32 = 1;

/// `SaltString::generate(&mut OsRng)` then `Argon2::hash_password` with
/// Argon2id, version 0x13 and the costs given, as a PHC string. Claimed:
/// when hashing succeeds, the string verifies the same password
/// (verification recomputes the hash from the recorded algorithm, version,
/// parameters and salt). Also claimed: with the costs 4096 KiB, 3 passes
/// and 1 lane, which `Params::new` accepts, and a password of at most
/// `0xFFFF_FFFF` bytes (the crate's `MAX_PWD_LEN`), hashing succeeds: the
/// generated salt is 16 bytes, within the crate's salt limits, and the
/// output length is the default. The salt, and so the string, is random
/// and not claimed.
#[verifier::external_body]
fn argon2_hash(password: &str, memory_kib: u32, passes: u32, lanes: u32) -> (r: Option<String>)
    ensures
        r matches Some(h) ==> argon2_check(h@, password@) == Some(true),
        memory_kib == 4096 && passes == 3 && lanes == 1 && encode_utf8(password@).len() <= 0xFFFF_FFFF
            ==> r is Some,
{
    let params = Params::new(memory_kib, passes, lanes, None).ok()?;
    let salt = SaltString::generate(&mut OsRng);
    let argon2 = Argon2::new(Algorithm::Argon2id, Version::V0x13, params);
    argon2.hash_password(password.as_bytes(), &salt).ok().map(|h| h.to_string())
}

/// A fresh salted hash of `password` to store. Hashing succeeds for every
/// password the hasher takes (at most `0xFFFF_FFFF` bytes); a longer one
/// is a `HashError`.
pub fn hash_password(password: &str) -> (r: Result<String, TimeError>)
    ensures
        r matches Ok(h) ==> argon2_check(h@, password@) == Some(true),
        encode_utf8(password@).len() <= 0xFFFF_FFFF ==> r is Ok,
        r matches Err(e) ==> e == TimeError::HashError,
{
    match argon2_hash(password, ARGON2_MEMORY_KIB, ARGON2_PASSES, ARGON2_LANES) {
        Some(h) => Ok(h),
        None => Err(TimeError::HashError),
    }
}

/// Whether `password` matches the stored hash; a stored hash that does not
/// parse is a `HashError`.
pub fn verify_password(stored: &str, password: &str) -> (r: Result<bool, TimeError>)
    ensures
        match argon2_check(stored@, password@) {
            Some(b) => r == Ok::<bool, TimeError>(b),
            None => r == Err::<bool, TimeError>(TimeError::HashError),
        },
{
    match argon2_verify(stored, password) {
        Some(b) => Ok(b),
        None => Err(TimeError::HashError),
    }
}

} // verus!
