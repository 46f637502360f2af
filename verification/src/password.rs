use vstd::prelude::*;
use crate::errors::AppError;
use crate::text::{dec_spec, starts_with_spec, zero_pad_spec};

verus! {

/// What `bcrypt::verify(password, hash)` answers for a password and a
/// stored hash: whether they match, or `None` where the hash cannot be
/// read as a bcrypt hash.
pub uninterp spec fn bcrypt_verdict(password: Seq<char>, hash: Seq<char>) -> Option<bool>;

/// The start of a hash that `bcrypt::hash` makes: version `2b` and the
/// two-digit cost, each behind a `$`.
pub open spec fn hash_head(cost: nat) -> Seq<char> {
    "$2b$"@ + zero_pad_spec(dec_spec(cost), 2) + "$"@
}

/// Calls `bcrypt::hash`, which salts from the operating system's random
/// source, so the hash itself is not named. Its source refuses a cost
/// outside `4..=31`, formats the hash as `$2b$<cost>$<salt><hash>`, and
/// `bcrypt::verify` recomputes the hash with the salt and cost it reads,
/// so a password verifies against its own hash. The error is passed on as
/// its message, which is left unstated.
#[verifier::external_body]
fn bcrypt_hash(password: &str, cost: u32) -> (r: Result<String, String>)
    ensures
        !(4 <= cost <= 31) ==> r is Err,
        r matches Ok(h) ==> starts_with_spec(h@, hash_head(cost as nat)),
        r matches Ok(h) ==> bcrypt_verdict(password@, h@) == Some(true),
{
    match bcrypt::hash(password, cost) {
        Ok(h) => Ok(h),
        Err(e) => Err(e.to_string()),
    }
}

/// Calls `bcrypt::verify`; its answer is named (`bcrypt_verdict`); the
/// message of an error is left unstated.
#[verifier::external_body]
fn bcrypt_verify(password: &str, hash: &str) -> (r: Result<bool, String>)
    ensures
        match r {
            Ok(b) => bcrypt_verdict(password@, hash@) == Some(b),
            Err(_) => bcrypt_verdict(password@, hash@) is None,
        },
{
    match bcrypt::verify(password, hash) {
        Ok(b) => Ok(b),
        Err(e) => Err(e.to_string()),
    }
}

/// The bcrypt cost of stored passwords.
pub const PASSWORD_COST: u32 = 12;

/// Hashes a password for storage. A hash that comes back starts with
/// `$2b$12$`, and the password verifies against it; a failure of the
/// random source is an internal error.
pub fn hash_password(password: &str) -> (r: Result<String, AppError>)
    ensures
        r matches Ok(h) ==> starts_with_spec(h@, hash_head(12)) && bcrypt_verdict(password@, h@)
            == Some(true),
        r matches Err(e) ==> e is Internal,
{
    match bcrypt_hash(password, PASSWORD_COST) {
        Ok(h) => Ok(h),
        Err(m) => Err(AppError::Internal(m)),
    }
}

/// Checks a password against a stored hash: bcrypt's answer, or an
/// internal error where the stored hash cannot be read.
pub fn verify_password(password: &str, hash: &str) -> (r: Result<bool, AppError>)
    ensures
        match bcrypt_verdict(password@, hash@) {
            Some(b) => r == Ok::<bool, AppError>(b),
            None => r matches Err(e) && e is Internal,
        },
{
    match bcrypt_verify(password, hash) {
        Ok(b) => Ok(b),
        Err(m) => Err(AppError::Internal(m)),
    }
}

} // verus!
