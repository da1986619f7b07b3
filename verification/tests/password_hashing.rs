use auth_core::hashing::{hash_password, verify_password};

#[test]
fn hash_then_verify_accepts() {
    let hash = hash_password("correct horse").unwrap();
    assert!(verify_password("correct horse", &hash));
}

#[test]
fn wrong_password_is_rejected() {
    let hash = hash_password("correct horse").unwrap();
    assert!(!verify_password("battery staple", &hash));
}

#[test]
fn malformed_hash_is_rejected() {
    assert!(!verify_password("anything", "not a phc string"));
}
