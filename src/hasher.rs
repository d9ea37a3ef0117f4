use vstd::prelude::*;
use crate::error::{AppError, ErrorView};

verus! {

/// What `bcrypt::verify` answers for a password and a stored hash: whether
/// they match, or `None` when the hash is not a well-formed bcrypt hash.
pub uninterp spec fn password_verdict(password: Seq<char>, hash: Seq<char>) -> Option<bool>;

/// A hash in bcrypt's `2b` format at cost 12: `$2b$12$`, then 22 characters
/// of salt and 31 of hash.
pub open spec fn bcrypt_shaped(h: Seq<char>) -> bool {
    h.len() == 60 && h.subrange(0, 7) == "$2b$12$"@
}

/// Relies on `bcrypt::hash` at `bcrypt::DEFAULT_COST` (12): it draws a random
/// salt, so nothing but the following is known of the result. On success the
/// result is formatted as `$2b$12$` with the salt and hash in bcrypt's base64
/// (22 and 31 characters), and `bcrypt::verify` recomputes exactly that hash
/// from the same password (the source truncates the password the same way
/// in both).
#[verifier::external_body]
fn bcrypt_hash(password: &str) -> (r: Option<String>)
    ensures
        r matches Some(h) ==> password_verdict(password@, h@) == Some(true),
        r matches Some(h) ==> bcrypt_shaped(h@),
{
    bcrypt::hash(password, bcrypt::DEFAULT_COST).ok()
}

/// Relies on `bcrypt::verify`: it reads salt and cost from `hash`, rehashes
/// `password` and compares; a hash it cannot parse is an error, here `None`.
#[verifier::external_body]
fn bcrypt_verify(password: &str, hash: &str) -> (r: Option<bool>)
    ensures
        r == password_verdict(password@, hash@),
{
    bcrypt::verify(password, hash).ok()
}

pub open spec fn hash_failed() -> ErrorView {
    ErrorView::Internal("Failed to hash password"@)
}

pub open spec fn verification_failed() -> ErrorView {
    ErrorView::Internal("Password verification failed"@)
}

/// A salted, slow hash of `password`.
pub fn hash_password(password: &str) -> (r: Result<String, AppError>)
    ensures
        match r {
            Ok(h) => password_verdict(password@, h@) == Some(true) && bcrypt_shaped(h@),
            Err(e) => e@ == hash_failed(),
        },
{
    match bcrypt_hash(password) {
        Some(h) => Ok(h),
        None => Err(AppError::Internal("Failed to hash password".to_owned())),
    }
}

/// Whether `password` matches `hash`. A malformed hash is an internal
/// error, kept apart from a plain mismatch.
pub fn verify_password(password: &str, hash: &str) -> (r: Result<bool, AppError>)
    ensures
        match password_verdict(password@, hash@) {
            Some(b) => r == Ok::<bool, AppError>(b),
            None => r matches Err(e) && e@ == verification_failed(),
        },
{
    match bcrypt_verify(password, hash) {
        Some(b) => Ok(b),
        None => Err(AppError::Internal("Password verification failed".to_owned())),
    }
}

} // verus!
