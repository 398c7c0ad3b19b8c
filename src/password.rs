use vstd::prelude::*;

verus! {

/// The outcome of checking a password against a stored bcrypt digest:
/// `Some(true)` on a match, `Some(false)` on a mismatch, `None` where the
/// digest is malformed. It depends on the two arguments alone.
pub uninterp spec fn password_check(password: Seq<char>, digest: Seq<char>) -> Option<bool>;

/// The lowest work factor that bcrypt accepts.
pub const MIN_HASH_COST: u32 = 4;

/// The highest work factor that bcrypt accepts.
pub const MAX_HASH_COST: u32 = 31;

/// Relies on `bcrypt::verify`: it re-derives the digest from the salt and cost
/// stored in `digest` and compares; it fails only on a malformed digest.
#[verifier::external_body]
pub(crate) fn verify_password(password: &String, digest: &String) -> (r: Option<bool>)
    ensures
        r == password_check(password@, digest@),
{
    bcrypt::verify(password, digest).ok()
}

/// Relies on `bcrypt::hash`: with a fresh random salt it builds a digest that
/// `bcrypt::verify` accepts for the same password; it fails only when the
/// operating system gives no randomness.
#[verifier::external_body]
pub(crate) fn hash_password(password: &String, cost: u32) -> (r: Option<String>)
    requires
        MIN_HASH_COST <= cost <= MAX_HASH_COST,
    ensures
        r matches Some(d) ==> password_check(password@, d@) == Some(true),
{
    bcrypt::hash(password, cost).ok()
}

} // verus!
