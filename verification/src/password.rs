//! Password secrecy: a comment keeps only a salted bcrypt hash of its
//! password, and a delete request proves knowledge of the password against
//! that hash.

use crate::error::ApiError;
use vstd::prelude::*;

verus! {

/// The work factor every new hash is made with.
pub const HASH_COST: u32 = 12;

#[verifier::external_type_specification]
#[verifier::external_body]
pub struct ExBcryptError(bcrypt::BcryptError);

/// What `bcrypt::verify` answers for a password and a stored hash: whether
/// the password matches, or `None` where the hash cannot be read or names a
/// cost outside bcrypt's range.
pub uninterp spec fn bcrypt_verdict(password: Seq<char>, hash: Seq<char>) -> Option<bool>;

/// `password` is accepted for the stored `hash`.
pub open spec fn password_matches(password: Seq<char>, hash: Seq<char>) -> bool {
    bcrypt_verdict(password, hash) == Some(true)
}

/// The decimal digit `d` as a character.
pub open spec fn digit(d: int) -> char {
    if d == 0 {
        '0'
    } else if d == 1 {
        '1'
    } else if d == 2 {
        '2'
    } else if d == 3 {
        '3'
    } else if d == 4 {
        '4'
    } else if d == 5 {
        '5'
    } else if d == 6 {
        '6'
    } else if d == 7 {
        '7'
    } else if d == 8 {
        '8'
    } else {
        '9'
    }
}

/// `hash` is written in bcrypt's `2b` form and names the work factor `cost`:
/// it begins with `$2b$`, the cost in two digits, and `$`.
pub open spec fn names_cost(hash: Seq<char>, cost: u32) -> bool {
    &&& hash.len() >= 7
    &&& hash[0] == '$'
    &&& hash[1] == '2'
    &&& hash[2] == 'b'
    &&& hash[3] == '$'
    &&& hash[4] == digit(cost as int / 10)
    &&& hash[5] == digit(cost as int % 10)
    &&& hash[6] == '$'
}

/// Calls `bcrypt::hash`, which salts from the operating system's randomness.
///
/// Trusted: a hash that comes back is 60 characters long, is written in the
/// `2b` form with the cost it was asked for, and verifies against the
/// password it was made from, because `bcrypt::verify` recomputes the hash
/// with the salt and cost written in it; a cost outside 4..=31 is always an
/// error. Success is never promised: the random source may fail.
#[verifier::external_body]
fn bcrypt_hash(password: &str, cost: u32) -> (res: Result<String, bcrypt::BcryptError>)
    ensures
        res matches Ok(hash) ==> hash@.len() == 60 && names_cost(hash@, cost) && bcrypt_verdict(
            password@,
            hash@,
        ) == Some(true),
        !(4 <= cost <= 31) ==> res is Err,
{
    bcrypt::hash(password, cost)
}

/// Calls `bcrypt::verify`.
///
/// Trusted: the answer depends on the two texts alone, and is the one that
/// [`bcrypt_verdict`] names.
#[verifier::external_body]
fn bcrypt_verify(password: &str, hash: &str) -> (res: Result<bool, bcrypt::BcryptError>)
    ensures
        match res {
            Ok(matched) => bcrypt_verdict(password@, hash@) == Some(matched),
            Err(_) => bcrypt_verdict(password@, hash@) is None,
        },
{
    bcrypt::verify(password, hash)
}

/// The outcome of a verification as the handlers see it.
pub open spec fn checked(verdict: Option<bool>) -> Result<bool, ApiError> {
    match verdict {
        Some(matched) => Ok(matched),
        None => Err(ApiError::Hash),
    }
}

/// Hashes a new comment's password for storage, with a fresh salt and the
/// work factor [`HASH_COST`].
///
/// Whatever comes back either is a hash of that cost that `password` verifies
/// against, or is the hashing failure.
pub fn hash_password(password: &str) -> (res: Result<String, ApiError>)
    ensures
        match res {
            Ok(hash) => hash@.len() == 60 && names_cost(hash@, HASH_COST) && password_matches(password@, hash@),
            Err(e) => e == ApiError::Hash,
        },
{
    match bcrypt_hash(password, HASH_COST) {
        Ok(hash) => Ok(hash),
        Err(_) => Err(ApiError::Hash),
    }
}

/// Checks a password against a stored hash.
pub fn check_password(password: &str, hash: &str) -> (res: Result<bool, ApiError>)
    ensures
        res == checked(bcrypt_verdict(password@, hash@)),
{
    match bcrypt_verify(password, hash) {
        Ok(matched) => Ok(matched),
        Err(_) => Err(ApiError::Hash),
    }
}

} // verus!
