use vstd::prelude::*;
use crate::session::{
    get_sign_up_session, link_phone_num, session_identity_preserved, session_live, verify_sms,
    SessionStore, SignUpSession,
};
use crate::sms_code::{
    code_live, get_code_attempts_count, get_code_exist, spec_verify_outcome, verify_code,
    CodeStore, SmsCodeOutcome,
};
use crate::util::sat_inc_u32;

verus! {

/// A request to dispatch a one-time code to a phone number.
pub struct SmsRequest {
    pub uuid: String,
    pub phone_num: String,
}

/// A submission of a received one-time code.
pub struct SmsVerifyRequest {
    pub uuid: String,
    pub code: String,
}

/// The outcome of a dispatch request handed back to the request layer.
pub struct SmsRequestResponse {
    pub error_code: Option<SmsRequestError>,
}

/// The outcome of a code submission handed back to the request layer.
pub struct SmsVerifyResponse {
    pub error_code: Option<SmsVerifyError>,
}

#[derive(Debug, PartialEq, Eq, Structural, Clone, Copy)]
pub enum SmsRequestError {
    SessionNotFound,
    NeedToWaitBeforeResend,
    PhoneNumNotMatching,
    InternalError,
    InvalidNumber,
    APIError,
    SmsAlreadyVerified,
}

#[derive(Debug, PartialEq, Eq, Structural, Clone, Copy)]
pub enum SmsVerifyError {
    SessionNotFound,
    NeedToResendCode,
    WrongCode,
    InternalError,
    TooManyAttempts,
}

/// What the code-dispatch collaborator can report back.
pub enum SmsCodeSendError {
    APIConnectionError,
    APIInternalError,
    APIAccountError,
    TooManyRequests,
    InvalidCreds,
    InvalidParams,
    DeserializationError,
    InternalError,
    UnknownError(String),
    InvalidNumber,
}

/// The error code shown for each way the code dispatch can fail: provider
/// faults surface as an API error, bad numbers as such, the rest as internal.
pub open spec fn spec_sms_send_error_code(error: SmsCodeSendError) -> SmsRequestError {
    match error {
        SmsCodeSendError::APIConnectionError => SmsRequestError::APIError,
        SmsCodeSendError::APIInternalError => SmsRequestError::APIError,
        SmsCodeSendError::APIAccountError => SmsRequestError::APIError,
        SmsCodeSendError::TooManyRequests => SmsRequestError::APIError,
        SmsCodeSendError::InvalidCreds => SmsRequestError::InternalError,
        SmsCodeSendError::InvalidParams => SmsRequestError::InternalError,
        SmsCodeSendError::DeserializationError => SmsRequestError::InternalError,
        SmsCodeSendError::InternalError => SmsRequestError::InternalError,
        SmsCodeSendError::UnknownError(_) => SmsRequestError::InternalError,
        SmsCodeSendError::InvalidNumber => SmsRequestError::InvalidNumber,
    }
}

/// Maps a code-dispatch failure to the error code the request layer shows.
pub fn sms_send_error_code(error: &SmsCodeSendError) -> (r: SmsRequestError)
    ensures
        r == spec_sms_send_error_code(*error),
{
    match error {
        SmsCodeSendError::APIConnectionError => SmsRequestError::APIError,
        SmsCodeSendError::APIInternalError => SmsRequestError::APIError,
        SmsCodeSendError::APIAccountError => SmsRequestError::APIError,
        SmsCodeSendError::TooManyRequests => SmsRequestError::APIError,
        SmsCodeSendError::InvalidCreds => SmsRequestError::InternalError,
        SmsCodeSendError::InvalidParams => SmsRequestError::InternalError,
        SmsCodeSendError::DeserializationError => SmsRequestError::InternalError,
        SmsCodeSendError::InternalError => SmsRequestError::InternalError,
        SmsCodeSendError::UnknownError(_) => SmsRequestError::InternalError,
        SmsCodeSendError::InvalidNumber => SmsRequestError::InvalidNumber,
    }
}

/// What a dispatch request decides for a loaded session, before any store
/// write: `Ok(true)` means the session claims the submitted number first
/// (link it, then send); `Ok(false)` means resend to the number already
/// bound; an error refuses the dispatch.
pub open spec fn spec_sms_request_decision(
    session: SignUpSession,
    phone_num: Seq<char>,
    resend_cooldown: int,
    now: int,
) -> Result<bool, SmsRequestError> {
    if session.sms_verified {
        Err(SmsRequestError::SmsAlreadyVerified)
    } else {
        match session.phone_num {
            Some(p) => if p@ != phone_num {
                Err(SmsRequestError::PhoneNumNotMatching)
            } else {
                match session.sms_sent_at {
                    Some(t) => if now - t > resend_cooldown {
                        Ok(false)
                    } else {
                        Err(SmsRequestError::NeedToWaitBeforeResend)
                    },
                    None => Err(SmsRequestError::InternalError),
                }
            },
            None => Ok(true),
        }
    }
}

/// The dispatch decision on a loaded session, callable on a record loaded
/// from any store: exactly `spec_sms_request_decision`.
pub fn sms_request_decision(
    session: &SignUpSession,
    phone_num: &str,
    resend_cooldown: i64,
    now: i64,
) -> (r: Result<bool, SmsRequestError>)
    ensures
        r == spec_sms_request_decision(*session, phone_num@, resend_cooldown as int, now as int),
{
    if session.sms_verified {
        return Err(SmsRequestError::SmsAlreadyVerified);
    }
    match &session.phone_num {
        Some(p) => {
            let bound = p.clone();
            let submitted = phone_num.to_owned();
            if !(bound == submitted) {
                return Err(SmsRequestError::PhoneNumNotMatching);
            }
            match session.sms_sent_at {
                Some(t) => {
                    let elapsed = match now.checked_sub(t) {
                        Some(d) => d > resend_cooldown,
                        None => now > t,
                    };
                    if elapsed {
                        Ok(false)
                    } else {
                        Err(SmsRequestError::NeedToWaitBeforeResend)
                    }
                },
                None => Err(SmsRequestError::InternalError),
            }
        },
        None => Ok(true),
    }
}

/// The dispatch-request sequencing rule, up to the outbound send itself: an
/// already verified session refuses another code; a session that already
/// claimed a phone number accepts only that same number, and then only once
/// the resend cooldown has elapsed since the last dispatch; a session with
/// no phone number yet claims the submitted one. On `Ok` the caller
/// dispatches the code and then records the send with `store_code` and
/// `update_sms_send_time`.
pub fn prepare_sms_request(
    sessions: &mut SessionStore,
    uuid: &str,
    phone_num: &str,
    resend_cooldown: i64,
    now: i64,
) -> (r: Result<(), SmsRequestError>)
    ensures
        !session_live(old(sessions)@, uuid@, now as int) ==> (r matches Err(e) && e
            == SmsRequestError::SessionNotFound) && final(sessions)@ == old(sessions)@,
        session_live(old(sessions)@, uuid@, now as int) && old(sessions)@[uuid@].session.sms_verified ==> (r matches Err(e) && e
            == SmsRequestError::SmsAlreadyVerified) && final(sessions)@ == old(sessions)@,
        session_live(old(sessions)@, uuid@, now as int) && !old(sessions)@[uuid@].session.sms_verified && old(sessions)@[uuid@].session.phone_num is Some
            ==> final(sessions)@ == old(sessions)@ && (if old(sessions)@[uuid@].session.phone_num->Some_0@ != phone_num@ {
            r == Result::<(), SmsRequestError>::Err(SmsRequestError::PhoneNumNotMatching)
        } else if old(sessions)@[uuid@].session.sms_sent_at is Some {
            if now - old(sessions)@[uuid@].session.sms_sent_at->Some_0 > resend_cooldown {
                r is Ok
            } else {
                r == Result::<(), SmsRequestError>::Err(SmsRequestError::NeedToWaitBeforeResend)
            }
        } else {
            r == Result::<(), SmsRequestError>::Err(SmsRequestError::InternalError)
        }),
        session_live(old(sessions)@, uuid@, now as int) && !old(sessions)@[uuid@].session.sms_verified && old(sessions)@[uuid@].session.phone_num is None ==> r
            is Ok && final(sessions)@.contains_key(uuid@) && final(sessions)@[uuid@].session.phone_num is Some
            && final(sessions)@[uuid@].session.phone_num->Some_0@ == phone_num@
            && session_identity_preserved(
            old(sessions)@[uuid@].session,
            final(sessions)@[uuid@].session,
        ) && !final(sessions)@[uuid@].session.sms_verified && final(sessions)@[uuid@].expires_at
            == old(sessions)@[uuid@].expires_at && final(sessions)@.remove(uuid@) == old(sessions)@.remove(uuid@),
{
    let sess = get_sign_up_session(sessions, uuid, now);
    match sess {
        None => Err(SmsRequestError::SessionNotFound),
        Some(s) => {
            match sms_request_decision(&s, phone_num, resend_cooldown, now) {
                Err(e) => Err(e),
                Ok(false) => Ok(()),
                Ok(true) => {
                    let _ = link_phone_num(sessions, uuid, phone_num, now);
                    Ok(())
                },
            }
        },
    }
}

/// The code-submission sequencing rule: the session must still live; a
/// missing or expired code record asks for a resend, distinctly from a wrong
/// code; a correct submission marks the session's phone verified; a wrong
/// one consumes an attempt and, once the budget is exhausted, is reported as
/// too many attempts rather than merely wrong.
pub fn handle_sms_verify(
    sessions: &mut SessionStore,
    codes: &mut CodeStore,
    uuid: &str,
    code: &str,
    max_attempts: u32,
    now: i64,
) -> (r: Result<(), SmsVerifyError>)
    ensures
        !session_live(old(sessions)@, uuid@, now as int) ==> (r matches Err(e) && e
            == SmsVerifyError::SessionNotFound) && final(sessions)@ == old(sessions)@ && final(codes)@ == old(codes)@,
        session_live(old(sessions)@, uuid@, now as int) && !code_live(
            old(codes)@,
            uuid@,
            now as int,
        ) ==> (r matches Err(e) && e == SmsVerifyError::NeedToResendCode) && final(sessions)@
            == old(sessions)@ && final(codes)@ == old(codes)@,
        session_live(old(sessions)@, uuid@, now as int) && code_live(old(codes)@, uuid@, now as int)
            ==> match spec_verify_outcome(
            old(codes)@[uuid@].code@,
            old(codes)@[uuid@].attempts_count,
            code@,
            max_attempts,
        ) {
            SmsCodeOutcome::Correct => r is Ok && final(codes)@ == old(codes)@ && final(sessions)@[uuid@].session.sms_verified && session_identity_preserved(
                old(sessions)@[uuid@].session,
                final(sessions)@[uuid@].session,
            ) && final(sessions)@[uuid@].session.phone_num == old(sessions)@[uuid@].session.phone_num
                && final(sessions)@[uuid@].session.sms_sent_at == old(sessions)@[uuid@].session.sms_sent_at
                && final(sessions)@[uuid@].expires_at == old(sessions)@[uuid@].expires_at
                && final(sessions)@.remove(uuid@) == old(sessions)@.remove(uuid@),
            SmsCodeOutcome::TooManyAttempts => (r matches Err(e) && e
                == SmsVerifyError::TooManyAttempts) && final(sessions)@ == old(sessions)@ && final(codes)@ == old(codes)@,
            SmsCodeOutcome::Wrong => final(sessions)@ == old(sessions)@ && final(codes)@[uuid@].attempts_count == sat_inc_u32(old(codes)@[uuid@].attempts_count) && final(codes)@[uuid@].code == old(codes)@[uuid@].code && final(codes)@[uuid@].expires_at == old(codes)@[uuid@].expires_at && final(codes)@.remove(uuid@) == old(codes)@.remove(uuid@) && (
            if sat_inc_u32(old(codes)@[uuid@].attempts_count) > max_attempts {
                r matches Err(e) && e == SmsVerifyError::TooManyAttempts
            } else {
                r matches Err(e) && e == SmsVerifyError::WrongCode
            }),
        },
{
    let have_session = get_sign_up_session(sessions, uuid, now).is_some();
    if !have_session {
        return Err(SmsVerifyError::SessionNotFound);
    }
    if !get_code_exist(codes, uuid, now) {
        return Err(SmsVerifyError::NeedToResendCode);
    }
    match verify_code(codes, uuid, code, max_attempts, now) {
        Some(SmsCodeOutcome::Correct) => {
            let marked = verify_sms(sessions, uuid, now);
            if marked {
                Ok(())
            } else {
                Err(SmsVerifyError::InternalError)
            }
        },
        Some(SmsCodeOutcome::TooManyAttempts) => Err(SmsVerifyError::TooManyAttempts),
        Some(SmsCodeOutcome::Wrong) => {
            match get_code_attempts_count(codes, uuid, now) {
                Some(attempts) => if attempts > max_attempts {
                    Err(SmsVerifyError::TooManyAttempts)
                } else {
                    Err(SmsVerifyError::WrongCode)
                },
                None => Err(SmsVerifyError::InternalError),
            }
        },
        None => Err(SmsVerifyError::InternalError),
    }
}

} // verus!
