use auth_core::sms_code::{
    code_outcome, get_code_attempts_count, get_code_exist, store_code, verify_code, CodeStore,
    SmsCodeOutcome,
};

#[test]
fn verify_against_absent_record_is_distinct() {
    let mut store = CodeStore::new();
    assert!(!get_code_exist(&store, "sess", 1_000));
    assert_eq!(verify_code(&mut store, "sess", "123456", 5, 1_000), None);
}

#[test]
fn correct_code_does_not_mutate() {
    let mut store = CodeStore::new();
    store_code(&mut store, "sess", "482913", 300, 1_000);
    assert_eq!(
        verify_code(&mut store, "sess", "482913", 5, 1_010),
        Some(SmsCodeOutcome::Correct)
    );
    // A correct submission consumes no attempt and leaves the record alone.
    assert_eq!(get_code_attempts_count(&store, "sess", 1_010), Some(0));
    assert_eq!(
        verify_code(&mut store, "sess", "482913", 5, 1_020),
        Some(SmsCodeOutcome::Correct)
    );
}

#[test]
fn wrong_code_consumes_one_attempt() {
    let mut store = CodeStore::new();
    store_code(&mut store, "sess", "482913", 300, 1_000);
    assert_eq!(
        verify_code(&mut store, "sess", "000000", 5, 1_010),
        Some(SmsCodeOutcome::Wrong)
    );
    assert_eq!(get_code_attempts_count(&store, "sess", 1_010), Some(1));
}

#[test]
fn code_comparison_is_exact() {
    let mut store = CodeStore::new();
    store_code(&mut store, "sess", "AB12", 300, 1_000);
    assert_eq!(
        verify_code(&mut store, "sess", "ab12", 5, 1_010),
        Some(SmsCodeOutcome::Wrong)
    );
    assert_eq!(
        verify_code(&mut store, "sess", "AB12", 5, 1_010),
        Some(SmsCodeOutcome::Correct)
    );
}

#[test]
fn exhausted_budget_is_stable_until_reissue() {
    let mut store = CodeStore::new();
    let max: u32 = 2;
    store_code(&mut store, "sess", "482913", 300, 1_000);
    assert_eq!(
        verify_code(&mut store, "sess", "000000", max, 1_001),
        Some(SmsCodeOutcome::Wrong)
    );
    assert_eq!(
        verify_code(&mut store, "sess", "111111", max, 1_002),
        Some(SmsCodeOutcome::Wrong)
    );
    assert_eq!(
        verify_code(&mut store, "sess", "222222", max, 1_003),
        Some(SmsCodeOutcome::Wrong)
    );
    // attempts_used now strictly exceeds the ceiling: rejected, repeatedly,
    // even with the correct code, and without mutating the record.
    for t in 1_004..1_010 {
        assert_eq!(
            verify_code(&mut store, "sess", "482913", max, t),
            Some(SmsCodeOutcome::TooManyAttempts)
        );
        assert_eq!(get_code_attempts_count(&store, "sess", t), Some(3));
    }
    // A fresh issue overwrites the record and resets the budget.
    store_code(&mut store, "sess", "777777", 300, 1_010);
    assert_eq!(get_code_attempts_count(&store, "sess", 1_010), Some(0));
    assert_eq!(
        verify_code(&mut store, "sess", "777777", max, 1_011),
        Some(SmsCodeOutcome::Correct)
    );
}

#[test]
fn reissue_resets_attempts_even_when_exhausted() {
    let mut store = CodeStore::new();
    store_code(&mut store, "sess", "482913", 300, 1_000);
    for _ in 0..5 {
        verify_code(&mut store, "sess", "000000", 2, 1_001);
    }
    store_code(&mut store, "sess", "123456", 300, 1_002);
    assert_eq!(get_code_attempts_count(&store, "sess", 1_002), Some(0));
}

#[test]
fn expired_code_counts_as_absent() {
    let mut store = CodeStore::new();
    store_code(&mut store, "sess", "482913", 300, 1_000);
    assert!(get_code_exist(&store, "sess", 1_299));
    assert!(!get_code_exist(&store, "sess", 1_300));
    assert_eq!(verify_code(&mut store, "sess", "482913", 5, 1_300), None);
    assert_eq!(get_code_attempts_count(&store, "sess", 1_300), None);
}

#[test]
fn outcome_on_raw_record_fields() {
    assert_eq!(code_outcome("482913", 0, "482913", 5), SmsCodeOutcome::Correct);
    assert_eq!(code_outcome("482913", 5, "000000", 5), SmsCodeOutcome::Wrong);
    assert_eq!(
        code_outcome("482913", 6, "482913", 5),
        SmsCodeOutcome::TooManyAttempts
    );
}
