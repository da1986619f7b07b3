use vstd::prelude::*;
use argon2::password_hash::{PasswordHasher, PasswordVerifier};

verus! {

/// What argon2's password verification decides for a password and a PHC hash
/// string: whether the hash was derived from that password. The decision is a
/// function of the two strings alone.
pub uninterp spec fn password_matches(password: Seq<char>, password_hash: Seq<char>) -> bool;

/// Relies on argon2's `PasswordHasher::hash_password`: whatever salt is drawn,
/// the returned PHC string verifies against the password it was derived from.
#[verifier::external_body]
pub fn hash_password(password: &str) -> (r: Option<String>)
    ensures
        r matches Some(h) ==> password_matches(password@, h@),
{
    match argon2::Argon2::default().hash_password(password.as_bytes()) {
        Ok(h) => Some(h.to_string()),
        Err(_) => None,
    }
}

/// Relies on argon2's `PasswordVerifier::verify_password`: it re-derives the
/// hash under the parameters and salt carried in the PHC string, so the
/// outcome depends on the password and the hash string alone.
#[verifier::external_body]
pub fn verify_password(password: &str, password_hash: &str) -> (r: bool)
    ensures
        r == password_matches(password@, password_hash@),
{
    PasswordVerifier::<str>::verify_password(
        &argon2::Argon2::default(),
        password.as_bytes(),
        password_hash,
    ).is_ok()
}

} // verus!
