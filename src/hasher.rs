use vstd::prelude::*;

verus! {

/// Work factor for new password hashes.
pub const HASH_COST: u32 = 12;

/// Whether bcrypt accepts `password` against the stored `hash`.
pub uninterp spec fn bcrypt_verifies(password: Seq<char>, hash: Seq<char>) -> bool;

/// Relies on `bcrypt::hash`: salts with fresh randomness and fails only for a cost
/// outside 4..=31 or when no randomness can be had; `bcrypt::verify` recomputes the
/// hash from the salt and cost embedded in the result, so it accepts the same password.
#[verifier::external_body]
fn bcrypt_hash(password: &str, cost: u32) -> (r: Option<String>)
    ensures
        r matches Some(h) ==> bcrypt_verifies(password@, h@),
        (cost < 4 || cost > 31) ==> r is None,
{
    bcrypt::hash(password, cost).ok()
}

/// Relies on `bcrypt::verify`: `Ok(true)` exactly when the password matches the
/// hash; a malformed hash gives an error, read here as a mismatch.
#[verifier::external_body]
fn bcrypt_verify(password: &str, hash: &str) -> (r: bool)
    ensures
        r == bcrypt_verifies(password@, hash@),
{
    bcrypt::verify(password, hash).unwrap_or(false)
}

/// Lowest and highest work factors that bcrypt takes.
pub const MIN_COST: u32 = 4;

pub const MAX_COST: u32 = 31;

/// Hashes a password with a fresh salt at work factor `cost`. `None` for a cost
/// outside `MIN_COST..=MAX_COST`, or when the system could not provide randomness.
/// A returned hash is accepted by `verify_password` for the same password.
pub fn hash_password(password: &str, cost: u32) -> (r: Option<String>)
    ensures
        r matches Some(h) ==> bcrypt_verifies(password@, h@),
        (cost < MIN_COST || cost > MAX_COST) ==> r is None,
{
    bcrypt_hash(password, cost)
}

/// Checks a password against a stored hash; a malformed hash never matches.
pub fn verify_password(password: &str, hash: &str) -> (r: bool)
    ensures
        r == bcrypt_verifies(password@, hash@),
{
    bcrypt_verify(password, hash)
}

} // verus!
