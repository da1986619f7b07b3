use vstd::prelude::*;
use crate::jwt::{create_jwt_token_at, token_of};
use crate::session::{delete_session, get_sign_up_session, session_live, SessionStore, SignUpSession};
use crate::user::UserData;

verus! {

/// A request to complete a sign-up, naming the session to consume.
pub struct Request {
    pub uuid: String,
}

/// The outcome handed back to the request layer: a fresh token and the
/// created user record, or an error code.
pub struct Response {
    pub jwt_token: Option<String>,
    pub user_data: Option<UserData>,
    pub error_code: Option<Error>,
}

#[derive(Debug, PartialEq, Eq, Structural, Clone, Copy)]
pub enum Error {
    SessionNotFound,
    EmailNotVerified,
    CodeNotVerified,
    InternalError,
}

/// The completion gate for a loaded session: completion requires the phone
/// number to have been verified, and nothing else of the session.
pub fn completion_gate(session: &SignUpSession) -> (r: Result<(), Error>)
    ensures
        session.sms_verified ==> r is Ok,
        !session.sms_verified ==> (r matches Err(e) && e == Error::CodeNotVerified),
{
    if session.sms_verified {
        Ok(())
    } else {
        Err(Error::CodeNotVerified)
    }
}

/// The first half of completion: the session must still live and its phone
/// number must be verified; then the record is consumed — deleted before the
/// durable user is created, trading resumability for the guarantee that a
/// completed session can never be replayed into a duplicate account. A
/// create failure after this point leaves the session unrecoverable; that
/// ordering is deliberate.
pub fn complete_take_session(sessions: &mut SessionStore, uuid: &str, now: i64) -> (r: Result<
    SignUpSession,
    Error,
>)
    ensures
        !session_live(old(sessions)@, uuid@, now as int) ==> (r matches Err(e) && e
            == Error::SessionNotFound) && final(sessions)@ == old(sessions)@,
        session_live(old(sessions)@, uuid@, now as int) && !old(sessions)@[uuid@].session.sms_verified ==> (r matches Err(e) && e == Error::CodeNotVerified)
            && final(sessions)@ == old(sessions)@,
        session_live(old(sessions)@, uuid@, now as int) && old(sessions)@[uuid@].session.sms_verified ==> (r matches Ok(s) && s == old(sessions)@[uuid@].session)
            && final(sessions)@ == old(sessions)@.remove(uuid@),
{
    let sess = get_sign_up_session(sessions, uuid, now);
    match sess {
        None => Err(Error::SessionNotFound),
        Some(s) => {
            match completion_gate(&s) {
                Err(e) => Err(e),
                Ok(_) => {
                    delete_session(sessions, uuid);
                    Ok(s)
                },
            }
        },
    }
}

/// The second half of completion, once the durable user has been created:
/// terminal success, a signed token for the new user alongside the record.
/// Completion is gated on the verified phone alone; the freshly created
/// account's own email-verification state does not block it.
pub fn complete_finish(
    user: UserData,
    jwt_secret: &str,
    jwt_expiration_days: i64,
    now: i64,
) -> (r: Result<(String, UserData), Error>)
    requires
        0 <= jwt_expiration_days,
        0 <= now,
        now as int + 86400 * (jwt_expiration_days as int) <= i64::MAX as int,
    ensures
        r is Ok,
        r matches Ok((t, u)) ==> u == user && t@ == token_of(
            user.uuid@,
            now as int,
            now as int + 86400 * (jwt_expiration_days as int),
            jwt_secret@,
        ),
{
    match create_jwt_token_at(user.uuid.as_str(), jwt_secret, jwt_expiration_days, now) {
        Ok(t) => Ok((t, user)),
        Err(_) => Err(Error::InternalError),
    }
}

} // verus!
