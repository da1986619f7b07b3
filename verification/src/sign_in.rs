use vstd::prelude::*;
use crate::google_claims::GoogleClaims;
use crate::hashing::{password_matches, verify_password};
use crate::jwt::{create_jwt_token_at, token_of, JWTError};
use crate::rate_limit::{
    clear_sign_in_attempts, increament_sign_in_attempts, is_locked, spec_is_locked,
    spec_record_failure, CounterStore,
};
use crate::user::UserData;

verus! {

/// A fixed PHC string against which a dummy comparison is run when no user
/// or no stored hash exists, to equalize latency between the branches.
const DUMMY_HASH: &'static str = "$argon2id$v=19$m=19456,t=2,p=1$+1F6v9OZsFvaYlTL8IPwtA$2lf7JtSOvRBZldOVGxWWgw+4uh/09TFFWJF6YGL+9co";

/// A sign-in request: either a password credential or a federated identity
/// token.
pub enum SignInRequest {
    PASSWORD { email: String, password: String },
    GOOGLE { id_token: String },
}

#[derive(Debug, PartialEq, Eq, Structural, Clone, Copy)]
pub enum SignInError {
    InvalidCredentials,
    TokenExpired,
    InternalError,
    NeedToVerifyEmail,
}

/// The outcome handed back to the request layer: at most one of an error
/// code, a fresh token, and the signed-in user's record.
pub struct SignInResponse {
    pub error_code: Option<SignInError>,
    pub jwt_token: Option<String>,
    pub user_data: Option<UserData>,
}

/// Whether the looked-up user record accepts the submitted password: the
/// record exists, carries a password hash, and the hash matches.
pub open spec fn spec_password_accepted(user: Option<UserData>, password: Seq<char>) -> bool {
    &&& user matches Some(u)
    &&& u.password_hash matches Some(h)
    &&& password_matches(password, h@)
}

/// The password sign-in sequencing rule: the lockout check comes first and
/// short-circuits; a wrong password (or unknown user) records one failure;
/// a correct password clears the counter before a token is issued, and the
/// sign-in then succeeds with that token whenever the clock value is
/// non-negative and the expiry fits the clock's integer range.
///
/// The caller supplies the user record looked up by email (`None` both when
/// no account exists and when the lookup failed, as the two are handled
/// alike) and the current time. Per the sequencing rule the caller should
/// consult `is_locked` first and skip the credential lookup for a locked
/// identifier; this function re-checks and short-circuits either way. On
/// success it still has to record the sign-in time against the durable
/// store.
pub fn handle_password_sign_in(
    attempts: &mut CounterStore,
    email: &str,
    password: &str,
    user: Option<UserData>,
    max_sign_in_attempts: u32,
    lock_window: i64,
    jwt_secret: &str,
    jwt_expiration_days: i64,
    now: i64,
) -> (r: Result<(String, UserData), SignInError>)
    ensures
        spec_is_locked(old(attempts)@, email@, max_sign_in_attempts, now as int) ==> (
        r matches Err(e) && e == SignInError::InvalidCredentials) && final(attempts)@ == old(attempts)@,
        !spec_is_locked(old(attempts)@, email@, max_sign_in_attempts, now as int)
            && spec_password_accepted(user, password@) ==> final(attempts)@ == old(attempts)@.remove(email@),
        !spec_is_locked(old(attempts)@, email@, max_sign_in_attempts, now as int)
            && spec_password_accepted(user, password@) && 0 <= now && 0 <= jwt_expiration_days
            && now as int + 86400 * (jwt_expiration_days as int) <= i64::MAX as int ==> r is Ok,
        !spec_is_locked(old(attempts)@, email@, max_sign_in_attempts, now as int) && !spec_password_accepted(
            user,
            password@,
        ) ==> (r matches Err(e) && e == SignInError::InvalidCredentials) && final(attempts)@
            == spec_record_failure(old(attempts)@, email@, now as int, lock_window as int),
        r matches Err(e) ==> e == SignInError::InvalidCredentials,
        r matches Ok((t, u)) ==> !spec_is_locked(
            old(attempts)@,
            email@,
            max_sign_in_attempts,
            now as int,
        ) && spec_password_accepted(user, password@) && user is Some && u == user->Some_0 && t@
            == token_of(
            u.uuid@,
            now as int,
            now as int + 86400 * (jwt_expiration_days as int),
            jwt_secret@,
        ),
{
    if is_locked(attempts, email, max_sign_in_attempts, now) {
        return Err(SignInError::InvalidCredentials);
    }
    match user {
        Some(u) => {
            let pw_ok = match &u.password_hash {
                Some(h) => verify_password(password, h.as_str()),
                None => false,
            };
            if pw_ok {
                clear_sign_in_attempts(attempts, email);
                if now >= 0 && jwt_expiration_days >= 0 {
                    let day_secs: i64 = 86400;
                    if let Some(secs) = day_secs.checked_mul(jwt_expiration_days) {
                        if now.checked_add(secs).is_some() {
                            return match create_jwt_token_at(
                                u.uuid.as_str(),
                                jwt_secret,
                                jwt_expiration_days,
                                now,
                            ) {
                                Ok(t) => Ok((t, u)),
                                Err(_) => Err(SignInError::InvalidCredentials),
                            };
                        }
                    }
                }
                Err(SignInError::InvalidCredentials)
            } else {
                let _ = verify_password(password, DUMMY_HASH);
                increament_sign_in_attempts(attempts, email, lock_window, now);
                Err(SignInError::InvalidCredentials)
            }
        },
        None => {
            let _ = verify_password(password, DUMMY_HASH);
            increament_sign_in_attempts(attempts, email, lock_window, now);
            Err(SignInError::InvalidCredentials)
        },
    }
}

/// What the federated sign-in flow does next, once the identity claims are
/// verified and the user store has been consulted.
pub enum GoogleSignInDecision {
    /// Reject with the given error.
    Reject(SignInError),
    /// The subject already names an account: sign that user in.
    SignIn(UserData),
    /// An account with the claimed email exists and carries no federated
    /// subject yet: link the subject to it, then sign in.
    Link(UserData),
}

/// The federated sign-in sequencing rule. Resolution by federated subject
/// bypasses the password lockout entirely; it requires the upstream email to
/// be verified. Failing that, an account found by email and not yet linked
/// is linked; anything else is rejected. The caller looks `by_email` up only
/// when `by_sub` came back empty.
pub fn google_sign_in_decision(
    claims: &GoogleClaims,
    by_sub: Option<UserData>,
    by_email: Option<UserData>,
) -> (r: GoogleSignInDecision)
    ensures
        by_sub is Some && !claims.email_verified ==> r == GoogleSignInDecision::Reject(
            SignInError::NeedToVerifyEmail,
        ),
        claims.email_verified && by_sub is Some ==> r == GoogleSignInDecision::SignIn(
            by_sub->Some_0,
        ),
        by_sub is None && by_email is Some ==> (if by_email->Some_0.google_sub is None {
            r == GoogleSignInDecision::Link(by_email->Some_0)
        } else {
            r == GoogleSignInDecision::Reject(SignInError::InvalidCredentials)
        }),
        by_sub is None && by_email is None ==> r == GoogleSignInDecision::Reject(
            SignInError::InvalidCredentials,
        ),
{
    match by_sub {
        Some(u) => {
            if !claims.email_verified {
                GoogleSignInDecision::Reject(SignInError::NeedToVerifyEmail)
            } else {
                GoogleSignInDecision::SignIn(u)
            }
        },
        None => {
            match by_email {
                Some(u) => {
                    if u.google_sub.is_none() {
                        GoogleSignInDecision::Link(u)
                    } else {
                        GoogleSignInDecision::Reject(SignInError::InvalidCredentials)
                    }
                },
                None => GoogleSignInDecision::Reject(SignInError::InvalidCredentials),
            }
        },
    }
}

/// After the federated subject has been linked to the account: an upstream
/// email that is not verified still blocks the sign-in, even though the link
/// itself succeeded; otherwise the user record carries the subject from now
/// on.
pub fn google_link_outcome(claims: &GoogleClaims, user: UserData) -> (r: Result<
    UserData,
    SignInError,
>)
    ensures
        !claims.email_verified ==> (r matches Err(e) && e == SignInError::NeedToVerifyEmail),
        claims.email_verified ==> (r matches Ok(u) && u.google_sub matches Some(s) && s@
            == claims.sub@ && u.uuid == user.uuid && u.email == user.email && u.email_verified
            == user.email_verified && u.name == user.name && u.password_hash == user.password_hash
            && u.phone_num == user.phone_num && u.created_at == user.created_at && u.last_seen_at
            == user.last_seen_at && u.picture == user.picture),
{
    if !claims.email_verified {
        return Err(SignInError::NeedToVerifyEmail);
    }
    let mut u = user;
    u.google_sub = Some(claims.sub.clone());
    Ok(u)
}

/// Maps the durable-store lookup of a token's subject to the sign-in result:
/// the three failure kinds stay distinguishable for the request layer.
pub fn resolve_user_lookup(lookup: Result<Option<UserData>, ()>) -> (r: Result<UserData, JWTError>)
    ensures
        lookup matches Ok(Some(u)) ==> (r matches Ok(u2) && u2 == u),
        lookup matches Ok(o) && o is None ==> (r matches Err(e) && e == JWTError::UserNotFound),
        lookup is Err ==> (r matches Err(e) && e == JWTError::InternalError),
{
    match lookup {
        Ok(Some(u)) => Ok(u),
        Ok(None) => Err(JWTError::UserNotFound),
        Err(_) => Err(JWTError::InternalError),
    }
}

} // verus!
