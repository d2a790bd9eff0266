//! Password hasher: a salted, deliberately slow one-way transform and its
//! verification, on top of bcrypt.

use vstd::prelude::*;
use crate::error::AuthError;

verus! {

#[verifier::external_type_specification]
#[verifier::external_body]
pub struct ExBcryptError(bcrypt::BcryptError);

/// Default work factor of the password hash (bcrypt accepts 4 to 31).
pub const HASH_COST: u32 = 12;

/// What bcrypt's verification says of a password against a stored hash:
/// `Some(b)` for a well-formed hash, `None` for a malformed one.
pub uninterp spec fn bcrypt_verdict(password: Seq<char>, hash: Seq<char>) -> Option<bool>;

/// Relies on bcrypt::hash: with a fresh random salt it hashes the password,
/// and its output is a well-formed hash that the same password verifies
/// against (verification recomputes the hash with the stored cost and salt).
/// A cost outside 4 to 31 is refused with an error.
#[verifier::external_body]
fn bcrypt_hash(password: &str, cost: u32) -> (r: Result<String, bcrypt::BcryptError>)
    ensures
        !(4 <= cost <= 31) ==> r is Err,
        r is Ok ==> bcrypt_verdict(password@, r->Ok_0@) == Some(true),
{
    bcrypt::hash(password, cost)
}

/// Relies on bcrypt::verify: an error for a malformed hash, otherwise whether
/// the password matches, compared in constant time.
#[verifier::external_body]
fn bcrypt_verify(password: &str, hash: &str) -> (r: Result<bool, bcrypt::BcryptError>)
    ensures
        match r {
            Ok(b) => bcrypt_verdict(password@, hash@) == Some(b),
            Err(_) => bcrypt_verdict(password@, hash@) is None,
        },
{
    bcrypt::verify(password, hash)
}

/// `hash` is a hash of `password`: verification accepts the pair.
pub open spec fn hashes_password(password: Seq<char>, hash: Seq<char>) -> bool {
    bcrypt_verdict(password, hash) == Some(true)
}

/// The outcome of checking `password` against the stored `hash`.
pub open spec fn password_check(password: Seq<char>, hash: Seq<char>) -> Result<bool, AuthError> {
    match bcrypt_verdict(password, hash) {
        Some(b) => Ok(b),
        None => Err(AuthError::InternalServerError),
    }
}

/// Hashes a password with the work factor `cost`. A failure of the hasher
/// (a cost outside 4 to 31, or no randomness for the salt) surfaces as an
/// internal error; a produced hash always verifies against the same password.
pub fn hash_password(password: &str, cost: u32) -> (r: Result<String, AuthError>)
    ensures
        !(4 <= cost <= 31) ==> r is Err,
        match r {
            Ok(h) => hashes_password(password@, h@),
            Err(e) => e == AuthError::InternalServerError,
        },
{
    match bcrypt_hash(password, cost) {
        Ok(h) => Ok(h),
        Err(_) => Err(AuthError::InternalServerError),
    }
}

/// Checks a password against a stored hash: `Ok(false)` on mismatch, an
/// internal error only when the hash is malformed.
pub fn verify_password(password: &str, hash: &str) -> (r: Result<bool, AuthError>)
    ensures
        r == password_check(password@, hash@),
{
    match bcrypt_verify(password, hash) {
        Ok(b) => Ok(b),
        Err(_) => Err(AuthError::InternalServerError),
    }
}

/// Every hash produced for a password verifies against that same password:
/// the random salt makes two hashes of one password differ, never the verdict.
pub proof fn lemma_hash_verifies(password: Seq<char>, hash: Seq<char>)
    requires
        hashes_password(password, hash),
    ensures
        password_check(password, hash) == Ok::<bool, AuthError>(true),
{
}

} // verus!
