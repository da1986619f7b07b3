use auth_core::google_claims::google_claims_new;
use auth_core::hashing::verify_password;
use auth_core::jwt::get_jwt_claims;
use auth_core::session::{get_sign_up_session, update_sms_send_time, SessionStore};
use auth_core::sign_up_complete::{complete_finish, completion_gate, Error};
use auth_core::sign_up_sms::{
    handle_sms_verify, prepare_sms_request, sms_request_decision, sms_send_error_code,
    SmsCodeSendError, SmsRequestError, SmsVerifyError,
};
use auth_core::sign_up_start::{handle_google_start, handle_password_start, StartError};
use auth_core::sms_code::{store_code, CodeStore};
use auth_core::user::UserData;

#[test]
fn captcha_failure_blocks_start() {
    let mut sessions = SessionStore::new();
    let r = handle_password_start(
        &mut sessions, "a@x.com", "pw1", "Ann", false, false, 900, 1_000,
    );
    assert!(matches!(r, Err(StartError::CaptchaVerificationFailed)));
}

#[test]
fn existing_email_blocks_start() {
    let mut sessions = SessionStore::new();
    let r = handle_password_start(
        &mut sessions, "a@x.com", "pw1", "Ann", true, true, 900, 1_000,
    );
    assert!(matches!(r, Err(StartError::EmailAlreadyExists)));
}

#[test]
fn password_start_stores_matching_hash() {
    let mut sessions = SessionStore::new();
    let uuid = handle_password_start(
        &mut sessions, "a@x.com", "pw1", "Ann", true, false, 900, 1_000,
    )
    .unwrap();
    let s = get_sign_up_session(&sessions, &uuid, 1_000).unwrap();
    let hash = s.password_hash.unwrap();
    assert!(verify_password("pw1", &hash));
    assert!(!verify_password("pw2", &hash));
}

#[test]
fn google_start_respects_existing_email() {
    let mut sessions = SessionStore::new();
    let claims = google_claims_new(
        "sub-1".to_string(),
        "g@x.com".to_string(),
        true,
        "Gee".to_string(),
        String::new(),
    );
    let r = handle_google_start(&mut sessions, &claims, true, 900, 1_000);
    assert!(matches!(r, Err(StartError::EmailAlreadyExists)));
    let uuid = handle_google_start(&mut sessions, &claims, false, 900, 1_000).unwrap();
    let s = get_sign_up_session(&sessions, &uuid, 1_000).unwrap();
    assert_eq!(s.google_sub.as_deref(), Some("sub-1"));
}

fn started_session(now: i64) -> (SessionStore, String) {
    let mut sessions = SessionStore::new();
    let uuid = handle_password_start(
        &mut sessions, "a@x.com", "pw1", "Ann", true, false, 900, now,
    )
    .unwrap();
    (sessions, uuid)
}

#[test]
fn sms_request_unknown_session() {
    let mut sessions = SessionStore::new();
    let r = prepare_sms_request(&mut sessions, "no-such", "+1555", 60, 1_000);
    assert!(matches!(r, Err(SmsRequestError::SessionNotFound)));
}

#[test]
fn sms_request_links_first_number() {
    let now: i64 = 1_000;
    let (mut sessions, uuid) = started_session(now);
    let r = prepare_sms_request(&mut sessions, &uuid, "+1555", 60, now);
    assert!(r.is_ok());
    let s = get_sign_up_session(&sessions, &uuid, now).unwrap();
    assert_eq!(s.phone_num.as_deref(), Some("+1555"));
}

#[test]
fn sms_request_rejects_mismatching_number() {
    let now: i64 = 1_000;
    let (mut sessions, uuid) = started_session(now);
    prepare_sms_request(&mut sessions, &uuid, "+1555", 60, now).unwrap();
    update_sms_send_time(&mut sessions, &uuid, now);
    let r = prepare_sms_request(&mut sessions, &uuid, "+1666", 60, now + 120);
    assert!(matches!(r, Err(SmsRequestError::PhoneNumNotMatching)));
}

#[test]
fn sms_request_enforces_resend_cooldown() {
    let now: i64 = 1_000;
    let (mut sessions, uuid) = started_session(now);
    prepare_sms_request(&mut sessions, &uuid, "+1555", 60, now).unwrap();
    update_sms_send_time(&mut sessions, &uuid, now);
    let r = prepare_sms_request(&mut sessions, &uuid, "+1555", 60, now + 60);
    assert!(matches!(r, Err(SmsRequestError::NeedToWaitBeforeResend)));
    let r = prepare_sms_request(&mut sessions, &uuid, "+1555", 60, now + 61);
    assert!(r.is_ok());
}

#[test]
fn sms_request_refuses_verified_session() {
    let now: i64 = 1_000;
    let (mut sessions, uuid) = started_session(now);
    let mut codes = CodeStore::new();
    prepare_sms_request(&mut sessions, &uuid, "+1555", 60, now).unwrap();
    store_code(&mut codes, &uuid, "482913", 300, now);
    update_sms_send_time(&mut sessions, &uuid, now);
    handle_sms_verify(&mut sessions, &mut codes, &uuid, "482913", 5, now).unwrap();
    let r = prepare_sms_request(&mut sessions, &uuid, "+1555", 60, now + 120);
    assert!(matches!(r, Err(SmsRequestError::SmsAlreadyVerified)));
}

#[test]
fn sms_verify_unknown_session() {
    let mut sessions = SessionStore::new();
    let mut codes = CodeStore::new();
    let r = handle_sms_verify(&mut sessions, &mut codes, "no-such", "482913", 5, 1_000);
    assert!(matches!(r, Err(SmsVerifyError::SessionNotFound)));
}

#[test]
fn sms_verify_without_code_asks_for_resend() {
    let now: i64 = 1_000;
    let (mut sessions, uuid) = started_session(now);
    let mut codes = CodeStore::new();
    let r = handle_sms_verify(&mut sessions, &mut codes, &uuid, "482913", 5, now);
    assert!(matches!(r, Err(SmsVerifyError::NeedToResendCode)));
}

#[test]
fn sms_verify_reports_exhausted_budget() {
    let now: i64 = 1_000;
    let (mut sessions, uuid) = started_session(now);
    let mut codes = CodeStore::new();
    store_code(&mut codes, &uuid, "482913", 300, now);
    let max: u32 = 1;
    let r = handle_sms_verify(&mut sessions, &mut codes, &uuid, "000000", max, now);
    assert!(matches!(r, Err(SmsVerifyError::WrongCode)));
    // This wrong submission pushes the budget over the ceiling and is
    // already reported as too many attempts.
    let r = handle_sms_verify(&mut sessions, &mut codes, &uuid, "111111", max, now);
    assert!(matches!(r, Err(SmsVerifyError::TooManyAttempts)));
    // And it stays that way, even for the correct code.
    let r = handle_sms_verify(&mut sessions, &mut codes, &uuid, "482913", max, now);
    assert!(matches!(r, Err(SmsVerifyError::TooManyAttempts)));
    // A fresh code restores the budget.
    store_code(&mut codes, &uuid, "777777", 300, now);
    let r = handle_sms_verify(&mut sessions, &mut codes, &uuid, "777777", max, now);
    assert!(r.is_ok());
}

#[test]
fn complete_finish_succeeds_for_freshly_created_user() {
    // Completion is gated on the verified phone alone: the new account's own
    // email-verification flag does not block the terminal success.
    let now: i64 = 1_700_000_000;
    let user = UserData {
        uuid: "e3b71688-fff3-44e5-a23a-5558ad09cadd".to_string(),
        email: "a@x.com".to_string(),
        email_verified: false,
        name: "Ann".to_string(),
        password_hash: None,
        google_sub: None,
        phone_num: "+1555".to_string(),
        created_at: now,
        last_seen_at: Some(now),
        picture: None,
    };
    let (token, user) = complete_finish(user, "s3cret", 7, now).unwrap();
    let claims = get_jwt_claims(&token, "s3cret", now).unwrap();
    assert_eq!(claims.sub, user.uuid);
}

#[test]
fn completion_gate_requires_verified_phone_only() {
    let now: i64 = 1_000;
    let (mut sessions, uuid) = started_session(now);
    let s = get_sign_up_session(&sessions, &uuid, now).unwrap();
    assert!(matches!(completion_gate(&s), Err(Error::CodeNotVerified)));
    let mut codes = CodeStore::new();
    store_code(&mut codes, &uuid, "482913", 300, now);
    handle_sms_verify(&mut sessions, &mut codes, &uuid, "482913", 5, now).unwrap();
    let s = get_sign_up_session(&sessions, &uuid, now).unwrap();
    assert!(completion_gate(&s).is_ok());
}

#[test]
fn request_decision_on_loaded_session() {
    let now: i64 = 1_000;
    let (mut sessions, uuid) = started_session(now);
    let s = get_sign_up_session(&sessions, &uuid, now).unwrap();
    // A session without a phone number claims the submitted one.
    assert_eq!(sms_request_decision(&s, "+1555", 60, now), Ok(true));
    prepare_sms_request(&mut sessions, &uuid, "+1555", 60, now).unwrap();
    update_sms_send_time(&mut sessions, &uuid, now);
    let s = get_sign_up_session(&sessions, &uuid, now).unwrap();
    assert_eq!(
        sms_request_decision(&s, "+1666", 60, now + 120),
        Err(SmsRequestError::PhoneNumNotMatching)
    );
    assert_eq!(
        sms_request_decision(&s, "+1555", 60, now + 30),
        Err(SmsRequestError::NeedToWaitBeforeResend)
    );
    assert_eq!(sms_request_decision(&s, "+1555", 60, now + 61), Ok(false));
}

#[test]
fn complete_finish_issues_token() {
    let now: i64 = 1_700_000_000;
    let user = UserData {
        uuid: "e3b71688-fff3-44e5-a23a-5558ad09cadd".to_string(),
        email: "a@x.com".to_string(),
        email_verified: true,
        name: "Ann".to_string(),
        password_hash: None,
        google_sub: None,
        phone_num: "+1555".to_string(),
        created_at: now,
        last_seen_at: Some(now),
        picture: None,
    };
    let (token, user) = complete_finish(user, "s3cret", 7, now).unwrap();
    let claims = get_jwt_claims(&token, "s3cret", now).unwrap();
    assert_eq!(claims.sub, user.uuid);
    assert_eq!(claims.exp, now + 7 * 86_400);
}

#[test]
fn send_error_codes_map_to_response_kinds() {
    assert_eq!(
        sms_send_error_code(&SmsCodeSendError::APIConnectionError),
        SmsRequestError::APIError
    );
    assert_eq!(
        sms_send_error_code(&SmsCodeSendError::APIInternalError),
        SmsRequestError::APIError
    );
    assert_eq!(
        sms_send_error_code(&SmsCodeSendError::APIAccountError),
        SmsRequestError::APIError
    );
    assert_eq!(
        sms_send_error_code(&SmsCodeSendError::TooManyRequests),
        SmsRequestError::APIError
    );
    assert_eq!(
        sms_send_error_code(&SmsCodeSendError::InvalidCreds),
        SmsRequestError::InternalError
    );
    assert_eq!(
        sms_send_error_code(&SmsCodeSendError::InvalidParams),
        SmsRequestError::InternalError
    );
    assert_eq!(
        sms_send_error_code(&SmsCodeSendError::DeserializationError),
        SmsRequestError::InternalError
    );
    assert_eq!(
        sms_send_error_code(&SmsCodeSendError::InternalError),
        SmsRequestError::InternalError
    );
    assert_eq!(
        sms_send_error_code(&SmsCodeSendError::UnknownError("x".to_string())),
        SmsRequestError::InternalError
    );
    assert_eq!(
        sms_send_error_code(&SmsCodeSendError::InvalidNumber),
        SmsRequestError::InvalidNumber
    );
}
