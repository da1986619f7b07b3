//! The authentication-session and rate-limiting core: TTL-bound sign-up
//! sessions, a one-time-code verifier with a bounded retry budget, a
//! brute-force lockout counter guarding password sign-in, and a stateless
//! credential issuer. Password hashing, token signing and identifier
//! generation are delegated to outside libraries through a handful of
//! trusted declarations; everything above them is verified.

pub mod google_claims;
pub mod hashing;
pub mod ids;
pub mod jwt;
pub mod rate_limit;
pub mod session;
pub mod sign_in;
pub mod sign_up_complete;
pub mod sign_up_sms;
pub mod sign_up_start;
pub mod sms_code;
pub mod user;
pub mod util;
