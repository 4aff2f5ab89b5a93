use vstd::prelude::*;
use crate::errors::AuthenticationError;

verus! {

/// The claims a session token carries: the subject (the username), the
/// issue instant and the expiry instant, both in seconds since the epoch.
#[derive(Debug, PartialEq, Eq, Clone)]
pub struct Claims {
    pub sub: String,
    pub exp: u64,
    pub iat: u64,
}

/// The signed serialized token that encoding these claims under this
/// secret yields.
pub uninterp spec fn jwt_of(sub: Seq<char>, iat: u64, exp: u64, secret: Seq<char>) -> Seq<char>;

/// The claims that decoding this token under this secret yields: the
/// subject, issue instant and expiry of the token when its signature
/// checks out under the secret, and nothing otherwise.
pub uninterp spec fn jwt_claims_of(token: Seq<char>, secret: Seq<char>) -> Option<
    (Seq<char>, u64, u64),
>;

/// Relies on jsonwebtoken::encode with the default header (HS256): the
/// token is a deterministic function of the claims and the secret, and —
/// as the crate's decode of a token it encoded — decoding it under the
/// same secret yields the claims back. The call cannot fail: with the
/// crate's RustCrypto provider, an HMAC key of any length is accepted,
/// HMAC signing is infallible, and a string-keyed claims object always
/// serializes.
#[verifier::external_body]
fn jwt_encode(sub: &String, iat: u64, exp: u64, secret: &String) -> (r: Option<String>)
    ensures
        r is Some,
        r matches Some(t) ==> t@ == jwt_of(sub@, iat, exp, secret@),
        r matches Some(t) ==> jwt_claims_of(t@, secret@) == Some((sub@, iat, exp)),
{
    let mut claims = serde_json::Map::new();
    claims.insert("sub".to_string(), serde_json::Value::String(sub.clone()));
    claims.insert("iat".to_string(), serde_json::Value::from(iat));
    claims.insert("exp".to_string(), serde_json::Value::from(exp));
    jsonwebtoken::encode(
        &jsonwebtoken::Header::default(),
        &serde_json::Value::Object(claims),
        &jsonwebtoken::EncodingKey::from_secret(secret.as_bytes()),
    ).ok()
}

/// Relies on jsonwebtoken::decode with HS256 and with expiry validation
/// turned off, so the outcome depends on the token and the secret alone;
/// the expiry is checked by the caller against its own clock.
#[verifier::external_body]
fn jwt_decode(token: &String, secret: &String) -> (r: Option<Claims>)
    ensures
        match r {
            Some(c) => jwt_claims_of(token@, secret@) == Some((c.sub@, c.iat, c.exp)),
            None => jwt_claims_of(token@, secret@) is None,
        },
{
    let mut validation = jsonwebtoken::Validation::new(jsonwebtoken::Algorithm::HS256);
    validation.validate_exp = false;
    validation.required_spec_claims.clear();
    let data = jsonwebtoken::decode::<serde_json::Value>(
        token.as_str(),
        &jsonwebtoken::DecodingKey::from_secret(secret.as_bytes()),
        &validation,
    ).ok()?;
    let sub = data.claims.get("sub")?.as_str()?.to_string();
    let iat = data.claims.get("iat")?.as_u64()?;
    let exp = data.claims.get("exp")?.as_u64()?;
    Some(Claims { sub, exp, iat })
}

/// Mints a session token for this subject: the expiry is computed at issue
/// time as `now` plus the configured lifetime, and the claims are signed
/// under the secret. This succeeds exactly when the expiry is
/// representable; an expiry beyond that range fails rather than wraps, as
/// an internal error.
pub fn issue_token(sub: &String, secret: &String, ttl: u64, now: u64) -> (r: Result<
    String,
    AuthenticationError,
>)
    ensures
        r is Ok <==> now + ttl <= u64::MAX,
        r matches Ok(t) ==> t@ == jwt_of(sub@, now, (now + ttl) as u64, secret@) && jwt_claims_of(
            t@,
            secret@,
        ) == Some((sub@, now, (now + ttl) as u64)),
        r matches Err(e) ==> e == AuthenticationError::InternalServerError,
{
    match now.checked_add(ttl) {
        None => Err(AuthenticationError::InternalServerError),
        Some(exp) => match jwt_encode(sub, now, exp, secret) {
            Some(t) => Ok(t),
            None => Err(AuthenticationError::InternalServerError),
        },
    }
}

/// Validates a session token against the secret and the caller's clock:
/// succeeds exactly when the signature checks out and the token is not yet
/// expired, and returns the claims it carries. A signature mismatch and an
/// expired token fail with the same error.
pub fn validate_token(token: &String, secret: &String, now: u64) -> (r: Result<
    Claims,
    AuthenticationError,
>)
    ensures
        match r {
            Ok(c) => jwt_claims_of(token@, secret@) == Some((c.sub@, c.iat, c.exp)) && now <= c.exp,
            Err(e) => e == AuthenticationError::InvalidToken && (match jwt_claims_of(
                token@,
                secret@,
            ) {
                Some(claims) => now > claims.2,
                None => true,
            }),
        },
{
    match jwt_decode(token, secret) {
        None => Err(AuthenticationError::InvalidToken),
        Some(c) => {
            if now > c.exp {
                Err(AuthenticationError::InvalidToken)
            } else {
                Ok(c)
            }
        },
    }
}

} // verus!
