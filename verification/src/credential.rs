use vstd::prelude::*;

verus! {

/// Whether this plaintext password matches this stored hash: the outcome
/// of bcrypt's deterministic re-computation of the hash from the password
/// and the salt embedded in the stored string. A string that does not
/// parse as a bcrypt hash matches nothing.
pub uninterp spec fn credential_matches(password: Seq<char>, hash: Seq<char>) -> bool;

/// The work factor handed to bcrypt when a password is hashed: kept at
/// bcrypt's minimum here, so the flows stay cheap; a deployment that wants
/// a stronger work factor passes a higher cost to `hash_password`.
pub const HASH_COST: u32 = 4;

/// Relies on bcrypt::hash: a salted one-way transform of the password.
/// The salt is drawn from the operating system's randomness, so two calls
/// on one password give different hashes; what bcrypt's source shows is
/// that a fresh hash verifies against the password it was produced from.
/// Fails only on internal failure (the entropy source, a cost outside
/// bcrypt's allowed range), never on the password's content.
#[verifier::external_body]
pub fn hash_password(password: &String, cost: u32) -> (r: Option<String>)
    ensures
        r matches Some(h) ==> credential_matches(password@, h@),
{
    bcrypt::hash(password.as_str(), cost).ok()
}

/// Relies on bcrypt::verify: re-computes the hash from the password and
/// the salt of the stored hash and compares in constant time, so the
/// outcome is a function of the two arguments alone. A mismatch or an
/// unparsable hash is `false`, never an error.
#[verifier::external_body]
pub fn verify_password(password: &String, hash: &String) -> (r: bool)
    ensures
        r == credential_matches(password@, hash@),
{
    bcrypt::verify(password.as_str(), hash.as_str()).unwrap_or(false)
}

} // verus!
