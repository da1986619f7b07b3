use vstd::prelude::*;
use jsonwebtoken::{decode, encode, Algorithm, DecodingKey, EncodingKey, Header, Validation};
use crate::ids::{is_uuid_str, parse_uuid_ok};

verus! {

/// The claims carried inside a session token.
pub struct JWTClaims {
    /// Subject: the durable user identifier, as a string.
    pub sub: String,
    /// Expiry, seconds since the Unix epoch.
    pub exp: i64,
    /// Issue time, seconds since the Unix epoch.
    pub iat: i64,
}

impl Clone for JWTClaims {
    fn clone(&self) -> (r: Self)
        ensures
            r == *self,
    {
        JWTClaims { sub: self.sub.clone(), exp: self.exp, iat: self.iat }
    }
}

#[derive(Debug, PartialEq, Eq, Structural, Clone, Copy)]
pub enum JWTError {
    EncodingError,
    DecodingError,
    InvalidToken,
    UserNotFound,
    InternalError,
}

/// The HS256 token that signing produces for the given subject, issue time,
/// expiry and secret: a deterministic function of those four values alone.
pub uninterp spec fn token_of(sub: Seq<char>, iat: int, exp: int, secret: Seq<char>) -> Seq<char>;

/// What signature-checking decoding extracts from a token under a secret:
/// the subject, issue time and expiry carried in the payload of a validly
/// signed token, or nothing when the token is rejected. Decoding accepts
/// more strings than the one canonical token per claim triple (a signed
/// payload may order or space its fields differently), so this is a separate
/// function of the token and the secret alone.
pub uninterp spec fn decoded_claims(token: Seq<char>, secret: Seq<char>) -> Option<
    (Seq<char>, int, int),
>;

/// Relies on jsonwebtoken's `encode`: an HS256 token is computed from the
/// claims and the secret alone, and the call cannot fail — a secret key
/// admits the default header's algorithm, and these claims always serialize.
#[verifier::external_body]
fn jwt_encode(sub: &str, iat: i64, exp: i64, secret: &str) -> (r: Option<String>)
    ensures
        r is Some,
        r matches Some(t) ==> t@ == token_of(sub@, iat as int, exp as int, secret@),
{
    let mut payload = serde_json::Map::new();
    payload.insert("sub".to_string(), serde_json::Value::from(sub));
    payload.insert("exp".to_string(), serde_json::Value::from(exp));
    payload.insert("iat".to_string(), serde_json::Value::from(iat));
    encode(
        &Header::default(),
        &serde_json::Value::Object(payload),
        &EncodingKey::from_secret(secret.as_bytes()),
    ).ok()
}

/// Decoding is complete: whenever the token is the one signing produces for
/// some claims under this secret, the result is those very claims.
pub open spec fn decode_returns_signed_claims(
    token: Seq<char>,
    secret: Seq<char>,
    r: Option<JWTClaims>,
) -> bool {
    forall|s: Seq<char>, i: int, e: int|
        (i64::MIN as int) <= i <= (i64::MAX as int) && (i64::MIN as int) <= e <= (i64::MAX as int)
            && token == #[trigger] token_of(s, i, e, secret)
            ==> (r matches Some(c) && c.sub@ == s && c.iat == i && c.exp == e)
}

/// Relies on jsonwebtoken's `decode`: it checks the signature under the
/// secret and returns the claims carried in the payload, a function of the
/// token and the secret alone (`decoded_claims`); and it accepts every token
/// that `encode` produced under the same secret, returning the claims it was
/// signed with. Expiry is deliberately not checked here; callers check it
/// against an explicit clock value.
#[verifier::external_body]
fn jwt_decode(token: &str, secret: &str) -> (r: Option<JWTClaims>)
    ensures
        r matches Some(c) ==> decoded_claims(token@, secret@) == Some(
            (c.sub@, c.iat as int, c.exp as int),
        ),
        r is None ==> decoded_claims(token@, secret@) is None,
        decode_returns_signed_claims(token@, secret@, r),
{
    let mut validation = Validation::new(Algorithm::HS256);
    validation.validate_exp = false;
    validation.required_spec_claims.clear();
    let key = DecodingKey::from_secret(secret.as_bytes());
    let c = decode::<serde_json::Value>(token, &key, &validation).ok()?.claims;
    Some(JWTClaims {
        sub: c.get("sub")?.as_str()?.to_string(),
        exp: c.get("exp")?.as_i64()?,
        iat: c.get("iat")?.as_i64()?,
    })
}

/// Relies on time's `OffsetDateTime::now_utc`: the current clock reading in
/// seconds. Nothing is assumed of the value.
#[verifier::external_body]
fn unix_time_now() -> (r: i64) {
    time::OffsetDateTime::now_utc().unix_timestamp()
}

/// A token is fresh at `now` when it was not issued in the future and its
/// expiry, with the sixty-second leeway the decoder grants, has not passed.
pub open spec fn token_fresh(iat: int, exp: int, now: int) -> bool {
    iat <= now && exp >= now - 60
}

/// Signs a token for the given subject at the given clock value; signing
/// itself cannot fail. The claims are issue time `now` and expiry `now`
/// plus the configured number of days.
pub fn create_jwt_token_at(
    user_uuid: &str,
    jwt_secret: &str,
    expiration_days: i64,
    now: i64,
) -> (r: Result<String, JWTError>)
    requires
        (i64::MIN as int) <= 86400 * (expiration_days as int) <= (i64::MAX as int),
        (i64::MIN as int) <= now as int + 86400 * (expiration_days as int) <= (i64::MAX as int),
    ensures
        r is Ok,
        r matches Ok(t) ==> t@ == token_of(
            user_uuid@,
            now as int,
            now as int + 86400 * (expiration_days as int),
            jwt_secret@,
        ),
{
    let exp: i64 = now + 60 * 60 * 24 * expiration_days;
    match jwt_encode(user_uuid, now, exp, jwt_secret) {
        Some(t) => Ok(t),
        None => Err(JWTError::EncodingError),
    }
}

/// Signs a token for the given subject at the current clock value. Since
/// signing itself cannot fail, `EncodingError` comes back only when the
/// expiry would overflow the clock's integer range — unreachable for any
/// real clock reading and time-to-live.
pub fn create_jwt_token(
    user_uuid: &str,
    jwt_secret: &str,
    expiration_days: i64,
) -> (r: Result<String, JWTError>)
    ensures
        r matches Ok(t) ==> exists|n: int|
            t@ == #[trigger] token_of(
                user_uuid@,
                n,
                n + 86400 * (expiration_days as int),
                jwt_secret@,
            ),
        r matches Err(e) ==> e == JWTError::EncodingError,
{
    let now = unix_time_now();
    let day_secs: i64 = 60 * 60 * 24;
    match day_secs.checked_mul(expiration_days) {
        Some(secs) => match now.checked_add(secs) {
            Some(_) => create_jwt_token_at(user_uuid, jwt_secret, expiration_days, now),
            None => Err(JWTError::EncodingError),
        },
        None => Err(JWTError::EncodingError),
    }
}

/// Validates a token against the secret at the given clock value and returns
/// its claims. A token whose signature or shape is rejected, or whose expiry
/// has passed, fails with `DecodingError`; a validly signed token issued in
/// the future fails with `InvalidToken`; the two kinds are never
/// interchanged. A fresh token signed under the same secret is always
/// accepted and yields the claims it was signed with.
pub fn get_jwt_claims(token: &str, secret: &str, now: i64) -> (r: Result<JWTClaims, JWTError>)
    ensures
        r matches Ok(c) ==> decoded_claims(token@, secret@) == Some(
            (c.sub@, c.iat as int, c.exp as int),
        ) && token_fresh(c.iat as int, c.exp as int, now as int),
        r matches Err(e) ==> match decoded_claims(token@, secret@) {
            None => e == JWTError::DecodingError,
            Some(t) => if t.2 < (now as int) - 60 {
                e == JWTError::DecodingError
            } else {
                e == JWTError::InvalidToken && t.1 > now as int
            },
        },
        forall|s: Seq<char>, i: int, e: int|
            (i64::MIN as int) <= i <= (i64::MAX as int) && (i64::MIN as int) <= e <= (i64::MAX as int)
                && token@ == #[trigger] token_of(s, i, e, secret@)
                && token_fresh(i, e, now as int)
                ==> (r matches Ok(c) && c.sub@ == s && c.iat == i && c.exp == e),
{
    match jwt_decode(token, secret) {
        None => Err(JWTError::DecodingError),
        Some(c) => {
            let expired = match now.checked_sub(60) {
                Some(d) => c.exp < d,
                None => false,
            };
            if expired {
                Err(JWTError::DecodingError)
            } else if c.iat > now {
                Err(JWTError::InvalidToken)
            } else {
                Ok(c)
            }
        },
    }
}

/// Validates a token and returns the subject it names, which must be a
/// well-formed identifier; a fresh validly signed token whose subject is no
/// identifier is rejected as `InvalidToken`, and the decode-time error kinds
/// pass through unchanged.
pub fn token_user_uuid(token: &str, secret: &str, now: i64) -> (r: Result<String, JWTError>)
    ensures
        r matches Ok(u) ==> is_uuid_str(u@) && (match decoded_claims(token@, secret@) {
            Some(t) => t.0 == u@ && token_fresh(t.1, t.2, now as int),
            None => false,
        }),
        r matches Err(e) ==> match decoded_claims(token@, secret@) {
            None => e == JWTError::DecodingError,
            Some(t) => if t.2 < (now as int) - 60 {
                e == JWTError::DecodingError
            } else if t.1 > now as int {
                e == JWTError::InvalidToken
            } else {
                e == JWTError::InvalidToken && !is_uuid_str(t.0)
            },
        },
        forall|s: Seq<char>, i: int, e: int|
            (i64::MIN as int) <= i <= (i64::MAX as int) && (i64::MIN as int) <= e <= (i64::MAX as int)
                && token@ == #[trigger] token_of(s, i, e, secret@)
                && token_fresh(i, e, now as int)
                && is_uuid_str(s)
                ==> (r matches Ok(u) && u@ == s),
{
    match get_jwt_claims(token, secret, now) {
        Err(e) => Err(e),
        Ok(c) => {
            if parse_uuid_ok(c.sub.as_str()) {
                Ok(c.sub)
            } else {
                Err(JWTError::InvalidToken)
            }
        },
    }
}

} // verus!
