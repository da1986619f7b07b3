use vstd::prelude::*;
use crate::google_claims::GoogleClaims;
use crate::hashing::{hash_password, password_matches};
use crate::session::{start_sign_up_google, start_sign_up_password, SessionStore};
use crate::util::sat_add_i64;

verus! {

/// A sign-up start request: a password credential with its CAPTCHA response,
/// or a federated identity token.
pub enum StartRequest {
    PASSWORD { email: String, password: String, name: String, captcha_token: String },
    GOOGLE { id_token: String },
}

/// The outcome handed back to the request layer: the fresh session
/// identifier, or an error code.
pub struct StartResponse {
    pub sign_up_token: Option<String>,
    pub error_code: Option<StartError>,
}

#[derive(Debug, PartialEq, Eq, Structural, Clone, Copy)]
pub enum StartError {
    CaptchaVerificationFailed,
    EmailAlreadyExists,
    InvalidToken,
    InternalError,
}

/// The password sign-up start sequencing rule: the CAPTCHA check precedes
/// the existing-account check, which precedes session creation. The caller
/// supplies the CAPTCHA verdict and whether an account with this email
/// already exists (compared by plain equality).
pub fn handle_password_start(
    sessions: &mut SessionStore,
    email: &str,
    password: &str,
    name: &str,
    captcha_passed: bool,
    email_taken: bool,
    session_ttl: i64,
    now: i64,
) -> (r: Result<String, StartError>)
    ensures
        !captcha_passed ==> (r matches Err(e) && e == StartError::CaptchaVerificationFailed)
            && final(sessions)@ == old(sessions)@,
        captcha_passed && email_taken ==> (r matches Err(e) && e == StartError::EmailAlreadyExists)
            && final(sessions)@ == old(sessions)@,
        r matches Err(e) ==> (captcha_passed && !email_taken ==> e == StartError::InternalError
            && final(sessions)@ == old(sessions)@),
        r matches Ok(uuid) ==> {
            &&& final(sessions)@.contains_key(uuid@)
            &&& final(sessions)@[uuid@].session.email@ == email@
            &&& final(sessions)@[uuid@].session.name@ == name@
            &&& final(sessions)@[uuid@].session.password_hash is Some
            &&& password_matches(
                password@,
                final(sessions)@[uuid@].session.password_hash->Some_0@,
            )
            &&& final(sessions)@[uuid@].session.google_sub is None
            &&& final(sessions)@[uuid@].session.phone_num is None
            &&& final(sessions)@[uuid@].session.sms_sent_at is None
            &&& !final(sessions)@[uuid@].session.sms_verified
            &&& final(sessions)@[uuid@].expires_at == sat_add_i64(now as int, session_ttl as int)
            &&& final(sessions)@.remove(uuid@) == old(sessions)@.remove(uuid@)
        },
{
    if !captcha_passed {
        return Err(StartError::CaptchaVerificationFailed);
    }
    if email_taken {
        return Err(StartError::EmailAlreadyExists);
    }
    match hash_password(password) {
        None => Err(StartError::InternalError),
        Some(h) => {
            let uuid = start_sign_up_password(sessions, email, h.as_str(), name, session_ttl, now);
            Ok(uuid)
        },
    }
}

/// The federated sign-up start sequencing rule: an account already holding
/// the claimed email blocks a second sign-up; otherwise a session is created
/// from the verified claims.
pub fn handle_google_start(
    sessions: &mut SessionStore,
    claims: &GoogleClaims,
    email_taken: bool,
    session_ttl: i64,
    now: i64,
) -> (r: Result<String, StartError>)
    ensures
        email_taken ==> (r matches Err(e) && e == StartError::EmailAlreadyExists) && final(sessions)@ == old(sessions)@,
        !email_taken ==> r is Ok,
        r matches Ok(uuid) ==> {
            &&& final(sessions)@.contains_key(uuid@)
            &&& final(sessions)@[uuid@].session.email == claims.email
            &&& final(sessions)@[uuid@].session.name == claims.name
            &&& final(sessions)@[uuid@].session.password_hash is None
            &&& final(sessions)@[uuid@].session.google_sub is Some
            &&& final(sessions)@[uuid@].session.google_sub->Some_0@ == claims.sub@
            &&& final(sessions)@[uuid@].session.picture == claims.picture
            &&& final(sessions)@[uuid@].session.phone_num is None
            &&& !final(sessions)@[uuid@].session.sms_verified
            &&& final(sessions)@[uuid@].expires_at == sat_add_i64(now as int, session_ttl as int)
            &&& final(sessions)@.remove(uuid@) == old(sessions)@.remove(uuid@)
        },
{
    if email_taken {
        return Err(StartError::EmailAlreadyExists);
    }
    let uuid = start_sign_up_google(sessions, claims, session_ttl, now);
    Ok(uuid)
}

} // verus!
