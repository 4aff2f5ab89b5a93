use vstd::prelude::*;

verus! {

/// Relies on chrono::Utc::now: the current wall-clock time, as seconds
/// since the Unix epoch; an instant before the epoch is clamped to zero.
/// Nothing is assumed of the value: callers state what holds of every
/// outcome.
#[verifier::external_body]
pub(crate) fn now_seconds() -> u64 {
    u64::try_from(chrono::Utc::now().timestamp()).unwrap_or(0)
}

/// Relies on uuid::Uuid::new_v4: a fresh random identifier, as its 128-bit
/// value. Nothing is assumed of the value, not even freshness: a collision
/// with an existing row surfaces as an internal error at the store.
#[verifier::external_body]
pub(crate) fn fresh_user_id() -> u128 {
    uuid::Uuid::new_v4().as_u128()
}

/// Relies on uuid::Uuid::new_v4: an unguessable random token string, drawn
/// from a cryptographically strong source, in hyphenated text form.
/// Nothing is assumed of the value.
#[verifier::external_body]
pub(crate) fn fresh_token_string() -> String {
    uuid::Uuid::new_v4().to_string()
}

} // verus!
