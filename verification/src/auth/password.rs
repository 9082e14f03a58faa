//! Password credentials: salted one-way hashing with bcrypt, and the check of
//! a password against a stored hash.

use crate::error::Error;
use bcrypt::BcryptError;
use vstd::prelude::*;

verus! {

/// `bcrypt::BcryptError`, the reason a bcrypt call failed.
#[verifier::external_type_specification]
#[verifier::external_body]
pub struct ExBcryptError(BcryptError);

/// What `bcrypt::verify` answers for a password and a stored hash: whether the
/// password is the one that was hashed, or `None` when the hash is malformed.
pub uninterp spec fn bcrypt_verdict(password: Seq<char>, hash: Seq<char>) -> Option<bool>;

/// `bcrypt::hash` at `bcrypt::DEFAULT_COST`: a hash of `password` under a fresh
/// random salt. It fails only when the system's random source does. Whatever
/// the salt, `bcrypt::verify` accepts `password` for the hash: it reads cost
/// and salt back from the hash and repeats the computation.
#[verifier::external_body]
fn bcrypt_hash(password: &str) -> (hashed: Result<String, BcryptError>)
    ensures
        hashed matches Ok(hash) ==> bcrypt_verdict(password@, hash@) == Some(true),
{
    bcrypt::hash(password, bcrypt::DEFAULT_COST)
}

/// `bcrypt::verify`: its answer depends on the password and the hash alone.
#[verifier::external_body]
fn bcrypt_verify(password: &str, hash: &str) -> (checked: Result<bool, BcryptError>)
    ensures
        checked matches Ok(same) ==> bcrypt_verdict(password@, hash@) == Some(same),
        checked is Err ==> bcrypt_verdict(password@, hash@) is None,
{
    bcrypt::verify(password, hash)
}

/// Whether `hash` is a well-formed hash that `password` satisfies.
pub open spec fn satisfies(password: Seq<char>, hash: Seq<char>) -> bool {
    bcrypt_verdict(password, hash) == Some(true)
}

/// What checking `password` against `hash` yields: a malformed hash is a
/// server problem, not a wrong password.
pub open spec fn verification(password: Seq<char>, hash: Seq<char>) -> Result<bool, Error> {
    match bcrypt_verdict(password, hash) {
        Some(same) => Ok(same),
        None => Err(Error::ServerProblem),
    }
}

/// Hashes a password for storage. Every hash this returns is one that
/// `password_verify` accepts for the same password.
pub fn password_hash(to_hash: &String) -> (hashed: Result<String, Error>)
    ensures
        hashed matches Ok(hash) ==> satisfies(to_hash@, hash@) && verification(to_hash@, hash@)
            == Ok::<bool, Error>(true),
        hashed matches Err(error) ==> error == Error::ServerProblem,
{
    match bcrypt_hash(to_hash.as_str()) {
        Ok(hash) => Ok(hash),
        Err(_) => Err(Error::ServerProblem),
    }
}

/// Checks a password against a stored hash.
pub fn password_verify(password: &String, hash: &str) -> (checked: Result<bool, Error>)
    ensures
        checked == verification(password@, hash@),
{
    match bcrypt_verify(password.as_str(), hash) {
        Ok(same) => Ok(same),
        Err(_) => Err(Error::ServerProblem),
    }
}

} // verus!
