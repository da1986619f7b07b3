use vstd::prelude::*;
use crate::session::SignUpSession;
use crate::util::clone_opt_string;

verus! {

/// The durable user record, as this core reads it: plain values mirroring
/// one row of the external user store, with timestamps in Unix seconds.
pub struct UserData {
    pub uuid: String,
    pub email: String,
    pub email_verified: bool,
    pub name: String,
    pub password_hash: Option<String>,
    pub google_sub: Option<String>,
    pub phone_num: String,
    pub created_at: i64,
    pub last_seen_at: Option<i64>,
    pub picture: Option<String>,
}

impl Clone for UserData {
    fn clone(&self) -> (r: Self)
        ensures
            r == *self,
    {
        UserData {
            uuid: self.uuid.clone(),
            email: self.email.clone(),
            email_verified: self.email_verified,
            name: self.name.clone(),
            password_hash: clone_opt_string(&self.password_hash),
            google_sub: clone_opt_string(&self.google_sub),
            phone_num: self.phone_num.clone(),
            created_at: self.created_at,
            last_seen_at: self.last_seen_at,
            picture: clone_opt_string(&self.picture),
        }
    }
}

/// The row that consuming a sign-up session inserts into the durable user
/// store: a fresh identifier, the session's identity and credential, its
/// verified phone number, creation and last-seen set to now, and the email
/// not yet verified.
pub fn user_from_session(session: SignUpSession, uuid: String, now: i64) -> (r: UserData)
    requires
        session.phone_num is Some,
    ensures
        r.uuid == uuid,
        r.email == session.email,
        !r.email_verified,
        r.name == session.name,
        r.password_hash == session.password_hash,
        r.google_sub == session.google_sub,
        session.phone_num matches Some(p) ==> r.phone_num == p,
        r.created_at == now,
        r.last_seen_at == Some(now),
        r.picture == session.picture,
{
    let phone_num = match session.phone_num {
        Some(p) => p,
        None => String::new(),
    };
    UserData {
        uuid,
        email: session.email,
        email_verified: false,
        name: session.name,
        password_hash: session.password_hash,
        google_sub: session.google_sub,
        phone_num,
        created_at: now,
        last_seen_at: Some(now),
        picture: session.picture,
    }
}

} // verus!
