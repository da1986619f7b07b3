use auth_core::jwt::{
    create_jwt_token, create_jwt_token_at, get_jwt_claims, token_user_uuid, JWTError,
};
use std::time::{SystemTime, UNIX_EPOCH};

#[test]
fn issue_then_validate_round_trip() {
    let now: i64 = 1_700_000_000;
    let token = create_jwt_token_at("user-123", "s3cret", 7, now).unwrap();
    let claims = get_jwt_claims(&token, "s3cret", now).unwrap();
    assert_eq!(claims.sub, "user-123");
    assert_eq!(claims.iat, now);
    assert_eq!(claims.exp, now + 7 * 86_400);
}

#[test]
fn round_trip_for_various_ttls_and_secrets() {
    let now: i64 = 1_700_000_000;
    for (days, secret) in [(0i64, "a"), (1, "longer secret value"), (365, "s3cret")] {
        let token = create_jwt_token_at("subject-x", secret, days, now).unwrap();
        let claims = get_jwt_claims(&token, secret, now).unwrap();
        assert_eq!(claims.sub, "subject-x");
        assert_eq!(claims.exp, now + days * 86_400);
    }
}

#[test]
fn wrong_secret_is_rejected() {
    let now: i64 = 1_700_000_000;
    let token = create_jwt_token_at("user-123", "s3cret", 7, now).unwrap();
    assert!(matches!(
        get_jwt_claims(&token, "other", now),
        Err(JWTError::DecodingError)
    ));
}

#[test]
fn garbage_token_is_rejected() {
    assert!(matches!(
        get_jwt_claims("not.a.token", "s3cret", 1_700_000_000),
        Err(JWTError::DecodingError)
    ));
}

#[test]
fn expired_token_is_rejected() {
    let now: i64 = 1_700_000_000;
    let token = create_jwt_token_at("user-123", "s3cret", 1, now).unwrap();
    // Within the sixty-second leeway the token still validates.
    assert!(get_jwt_claims(&token, "s3cret", now + 86_400 + 60).is_ok());
    assert!(matches!(
        get_jwt_claims(&token, "s3cret", now + 86_400 + 61),
        Err(JWTError::DecodingError)
    ));
}

#[test]
fn negative_ttl_issues_an_already_expired_token() {
    let now: i64 = 1_700_000_000;
    let token = create_jwt_token_at("user-123", "s3cret", -1, now).unwrap();
    assert!(matches!(
        get_jwt_claims(&token, "s3cret", now),
        Err(JWTError::DecodingError)
    ));
}

#[test]
fn future_issue_time_is_invalid() {
    let now: i64 = 1_700_000_000;
    let token = create_jwt_token_at("user-123", "s3cret", 7, now + 1_000).unwrap();
    assert!(matches!(
        get_jwt_claims(&token, "s3cret", now),
        Err(JWTError::InvalidToken)
    ));
}

#[test]
fn token_subject_must_be_identifier() {
    let now: i64 = 1_700_000_000;
    let good = create_jwt_token_at("e3b71688-fff3-44e5-a23a-5558ad09cadd", "s3cret", 7, now)
        .unwrap();
    assert_eq!(
        token_user_uuid(&good, "s3cret", now).unwrap(),
        "e3b71688-fff3-44e5-a23a-5558ad09cadd"
    );
    let bad = create_jwt_token_at("user-123", "s3cret", 7, now).unwrap();
    assert!(matches!(
        token_user_uuid(&bad, "s3cret", now),
        Err(JWTError::InvalidToken)
    ));
}

#[test]
fn clock_based_issue_validates_now() {
    let token = create_jwt_token("user-123", "s3cret", 7).unwrap();
    let now = SystemTime::now().duration_since(UNIX_EPOCH).unwrap().as_secs() as i64;
    let claims = get_jwt_claims(&token, "s3cret", now).unwrap();
    assert_eq!(claims.sub, "user-123");
}
