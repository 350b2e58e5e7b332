//! Password hashing and verification with bcrypt.
use vstd::prelude::*;

verus! {

/// What `bcrypt::verify` reports for a plaintext against an encoded hash:
/// `Some(m)` with `m` true iff the plaintext matches, `None` when the hash
/// cannot be read (bad format, prefix, cost or salt).
pub uninterp spec fn bcrypt_verdict(password: Seq<char>, hash: Seq<char>) -> Option<bool>;

/// Relies on `bcrypt::verify`: re-hashes the plaintext with the cost and salt
/// embedded in `hash` and compares in constant time; a malformed hash is an
/// error. The outcome depends on the two arguments alone.
#[verifier::external_body]
fn bcrypt_verify(password: &str, hash: &str) -> (r: Option<bool>)
    ensures
        r == bcrypt_verdict(password@, hash@),
{
    bcrypt::verify(password, hash).ok()
}

/// The shape of a bcrypt hash at the default cost: `$2b$12$` followed by 22
/// characters of salt and 31 of hash.
pub open spec fn bcrypt_form(s: Seq<char>) -> bool {
    s.len() == 60 && s.take(7) == "$2b$12$"@
}

/// Relies on `bcrypt::hash` at `bcrypt::DEFAULT_COST` (12): a random salt is
/// drawn (failing only when the system's randomness fails), and the result is
/// formatted as version `2b`, the two-digit cost, 22 characters of salt and 31
/// of hash. It carries that salt and cost, so `bcrypt::verify` accepts the
/// plaintext against it.
#[verifier::external_body]
fn bcrypt_hash(password: &str) -> (r: Option<String>)
    ensures
        r is Some ==> bcrypt_verdict(password@, r.unwrap()@) == Some(true),
        r is Some ==> bcrypt_form(r.unwrap()@),
{
    bcrypt::hash(password, bcrypt::DEFAULT_COST).ok()
}

/// A plaintext is accepted against a stored hash when bcrypt reports a match;
/// a hash that cannot be read accepts nothing.
pub open spec fn password_accepted(password: Seq<char>, hash: Seq<char>) -> bool {
    bcrypt_verdict(password, hash) == Some(true)
}

/// Checks a plaintext against a stored hash, telling a mismatch (`Some(false)`)
/// apart from a hash that cannot be read (`None`).
pub fn check_password(password: &str, hash: &str) -> (r: Option<bool>)
    ensures
        r == bcrypt_verdict(password@, hash@),
{
    bcrypt_verify(password, hash)
}

/// Checks a plaintext against a stored hash, failing closed on a corrupt hash.
pub fn verify_password(password: &str, hash: &str) -> (r: bool)
    ensures
        r == password_accepted(password@, hash@),
{
    match check_password(password, hash) {
        Some(m) => m,
        None => false,
    }
}

/// Hashes a plaintext with a fresh salt. Every result is accepted for the
/// same plaintext by [`verify_password`], and has the bcrypt shape, so it
/// differs from every plaintext of another shape.
pub fn hash_password(password: &str) -> (r: Option<String>)
    ensures
        r is Some ==> password_accepted(password@, r.unwrap()@),
        r is Some ==> bcrypt_form(r.unwrap()@),
        r is Some && !bcrypt_form(password@) ==> r.unwrap()@ != password@,
{
    bcrypt_hash(password)
}

} // verus!
