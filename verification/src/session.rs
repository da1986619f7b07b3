use vstd::prelude::*;
use vstd::hash_map::StringHashMap;
use crate::google_claims::GoogleClaims;
use crate::ids::{is_uuid_str, new_uuid_string};
use crate::util::{clock_add, clone_opt_string, sat_add_i64};

verus! {

/// One in-flight sign-up: the immutable identity fields, exactly one
/// credential (a password hash or a federated subject), and the state of the
/// phone-verification step.
pub struct SignUpSession {
    pub email: String,
    pub name: String,
    pub password_hash: Option<String>,
    pub google_sub: Option<String>,
    pub picture: Option<String>,
    pub phone_num: Option<String>,
    pub sms_sent_at: Option<i64>,
    pub sms_verified: bool,
}

impl Clone for SignUpSession {
    fn clone(&self) -> (r: Self)
        ensures
            r == *self,
    {
        SignUpSession {
            email: self.email.clone(),
            name: self.name.clone(),
            password_hash: clone_opt_string(&self.password_hash),
            google_sub: clone_opt_string(&self.google_sub),
            picture: clone_opt_string(&self.picture),
            phone_num: clone_opt_string(&self.phone_num),
            sms_sent_at: self.sms_sent_at,
            sms_verified: self.sms_verified,
        }
    }
}

/// A stored session together with its absolute expiry time.
pub struct SessionRecord {
    pub session: SignUpSession,
    pub expires_at: i64,
}

impl Clone for SessionRecord {
    fn clone(&self) -> (r: Self)
        ensures
            r == *self,
    {
        SessionRecord { session: self.session.clone(), expires_at: self.expires_at }
    }
}

/// The sign-up sessions, keyed by session identifier. A record whose expiry
/// has passed counts as absent.
pub struct SessionStore {
    m: StringHashMap<SessionRecord>,
}

impl View for SessionStore {
    type V = Map<Seq<char>, SessionRecord>;

    closed spec fn view(&self) -> Self::V {
        self.m@
    }
}

impl SessionStore {
    /// Creates an empty session store.
    pub fn new() -> (r: SessionStore)
        ensures
            r@ == Map::<Seq<char>, SessionRecord>::empty(),
    {
        SessionStore { m: StringHashMap::new() }
    }
}

/// Whether a live (unexpired) session exists for the key at time `now`.
pub open spec fn session_live(m: Map<Seq<char>, SessionRecord>, key: Seq<char>, now: int) -> bool {
    m.contains_key(key) && now < m[key].expires_at
}

/// The fields of a session that no operation after creation may change:
/// identity, credential, and — once set — the phone number.
pub open spec fn session_identity_preserved(before: SignUpSession, after: SignUpSession) -> bool {
    after.email == before.email && after.name == before.name && after.password_hash
        == before.password_hash && after.google_sub == before.google_sub && after.picture
        == before.picture
}

/// Allocates a fresh identifier and writes a new password-credential session
/// under it: no phone number, no code sent, phone not verified.
pub fn start_sign_up_password(
    sessions: &mut SessionStore,
    email: &str,
    password_hash: &str,
    name: &str,
    expiration_time: i64,
    now: i64,
) -> (uuid: String)
    ensures
        uuid@.len() == 36 && is_uuid_str(uuid@),
        final(sessions)@.contains_key(uuid@),
        final(sessions)@[uuid@].session.email@ == email@,
        final(sessions)@[uuid@].session.name@ == name@,
        final(sessions)@[uuid@].session.password_hash matches Some(h) && h@ == password_hash@,
        final(sessions)@[uuid@].session.google_sub is None,
        final(sessions)@[uuid@].session.picture is None,
        final(sessions)@[uuid@].session.phone_num is None,
        final(sessions)@[uuid@].session.sms_sent_at is None,
        !final(sessions)@[uuid@].session.sms_verified,
        final(sessions)@[uuid@].expires_at == sat_add_i64(now as int, expiration_time as int),
        final(sessions)@.remove(uuid@) == old(sessions)@.remove(uuid@),
{
    let uuid = new_uuid_string();
    let session = SignUpSession {
        email: email.to_owned(),
        name: name.to_owned(),
        password_hash: Some(password_hash.to_owned()),
        google_sub: None,
        picture: None,
        phone_num: None,
        sms_sent_at: None,
        sms_verified: false,
    };
    let expires_at = clock_add(now, expiration_time);
    sessions.m.insert(uuid.clone(), SessionRecord { session, expires_at });
    proof {
        assert(sessions@.remove(uuid@) =~= old(sessions)@.remove(uuid@));
    }
    uuid
}

/// Allocates a fresh identifier and writes a new federated-credential
/// session under it, copying identity and picture from the verified claims.
pub fn start_sign_up_google(
    sessions: &mut SessionStore,
    claims: &GoogleClaims,
    expiration_time: i64,
    now: i64,
) -> (uuid: String)
    ensures
        uuid@.len() == 36 && is_uuid_str(uuid@),
        final(sessions)@.contains_key(uuid@),
        final(sessions)@[uuid@].session.email == claims.email,
        final(sessions)@[uuid@].session.name == claims.name,
        final(sessions)@[uuid@].session.password_hash is None,
        final(sessions)@[uuid@].session.google_sub matches Some(s) && s@ == claims.sub@,
        final(sessions)@[uuid@].session.picture == claims.picture,
        final(sessions)@[uuid@].session.phone_num is None,
        final(sessions)@[uuid@].session.sms_sent_at is None,
        !final(sessions)@[uuid@].session.sms_verified,
        final(sessions)@[uuid@].expires_at == sat_add_i64(now as int, expiration_time as int),
        final(sessions)@.remove(uuid@) == old(sessions)@.remove(uuid@),
{
    let uuid = new_uuid_string();
    let session = SignUpSession {
        email: claims.email.clone(),
        name: claims.name.clone(),
        password_hash: None,
        google_sub: Some(claims.sub.clone()),
        picture: clone_opt_string(&claims.picture),
        phone_num: None,
        sms_sent_at: None,
        sms_verified: false,
    };
    let expires_at = clock_add(now, expiration_time);
    sessions.m.insert(uuid.clone(), SessionRecord { session, expires_at });
    proof {
        assert(sessions@.remove(uuid@) =~= old(sessions)@.remove(uuid@));
    }
    uuid
}

/// Loads the session, or `None` when the key is absent or expired — the
/// dominant failure once the TTL elapses; callers treat it as "start over."
pub fn get_sign_up_session(sessions: &SessionStore, uuid: &str, now: i64) -> (r: Option<
    SignUpSession,
>)
    ensures
        r is Some <==> session_live(sessions@, uuid@, now as int),
        r matches Some(s) ==> s == sessions@[uuid@].session,
{
    match sessions.m.get(uuid) {
        Some(rec) => if now < rec.expires_at {
            Some(rec.session.clone())
        } else {
            None
        },
        None => None,
    }
}

/// Sets the session's phone number, overwriting any prior value; callers
/// enforce immutability by comparing first. Returns whether a live session
/// was found. The phone-verified flag is never cleared by this operation.
pub fn link_phone_num(sessions: &mut SessionStore, uuid: &str, phone_num: &str, now: i64) -> (r:
    bool)
    ensures
        r == session_live(old(sessions)@, uuid@, now as int),
        !r ==> final(sessions)@ == old(sessions)@,
        r ==> final(sessions)@.contains_key(uuid@),
        r ==> (final(sessions)@[uuid@].session.phone_num matches Some(p) && p@ == phone_num@),
        r ==> session_identity_preserved(
            old(sessions)@[uuid@].session,
            final(sessions)@[uuid@].session,
        ),
        r ==> final(sessions)@[uuid@].session.sms_sent_at == old(sessions)@[uuid@].session.sms_sent_at,
        r ==> final(sessions)@[uuid@].session.sms_verified == old(sessions)@[uuid@].session.sms_verified,
        r ==> final(sessions)@[uuid@].expires_at == old(sessions)@[uuid@].expires_at,
        r ==> final(sessions)@.remove(uuid@) == old(sessions)@.remove(uuid@),
{
    let rec: Option<SessionRecord> = match sessions.m.get(uuid) {
        Some(rc) => if now < rc.expires_at {
            Some(rc.clone())
        } else {
            None
        },
        None => None,
    };
    match rec {
        Some(mut rc) => {
            rc.session.phone_num = Some(phone_num.to_owned());
            sessions.m.insert(uuid.to_owned(), rc);
            proof {
                assert(sessions@.remove(uuid@) =~= old(sessions)@.remove(uuid@));
            }
            true
        },
        None => false,
    }
}

/// Records that a code was dispatched at time `now`. Returns whether a live
/// session was found. The phone-verified flag is never cleared by this
/// operation.
pub fn update_sms_send_time(sessions: &mut SessionStore, uuid: &str, now: i64) -> (r: bool)
    ensures
        r == session_live(old(sessions)@, uuid@, now as int),
        !r ==> final(sessions)@ == old(sessions)@,
        r ==> final(sessions)@.contains_key(uuid@),
        r ==> final(sessions)@[uuid@].session.sms_sent_at == Some(now),
        r ==> session_identity_preserved(
            old(sessions)@[uuid@].session,
            final(sessions)@[uuid@].session,
        ),
        r ==> final(sessions)@[uuid@].session.phone_num == old(sessions)@[uuid@].session.phone_num,
        r ==> final(sessions)@[uuid@].session.sms_verified == old(sessions)@[uuid@].session.sms_verified,
        r ==> final(sessions)@[uuid@].expires_at == old(sessions)@[uuid@].expires_at,
        r ==> final(sessions)@.remove(uuid@) == old(sessions)@.remove(uuid@),
{
    let rec: Option<SessionRecord> = match sessions.m.get(uuid) {
        Some(rc) => if now < rc.expires_at {
            Some(rc.clone())
        } else {
            None
        },
        None => None,
    };
    match rec {
        Some(mut rc) => {
            rc.session.sms_sent_at = Some(now);
            sessions.m.insert(uuid.to_owned(), rc);
            proof {
                assert(sessions@.remove(uuid@) =~= old(sessions)@.remove(uuid@));
            }
            true
        },
        None => false,
    }
}

/// Marks the session's phone number as verified; idempotent, and the flag is
/// monotonic: no session operation ever resets it to false.
pub fn verify_sms(sessions: &mut SessionStore, uuid: &str, now: i64) -> (r: bool)
    ensures
        r == session_live(old(sessions)@, uuid@, now as int),
        !r ==> final(sessions)@ == old(sessions)@,
        r ==> final(sessions)@.contains_key(uuid@),
        r ==> final(sessions)@[uuid@].session.sms_verified,
        r ==> session_identity_preserved(
            old(sessions)@[uuid@].session,
            final(sessions)@[uuid@].session,
        ),
        r ==> final(sessions)@[uuid@].session.phone_num == old(sessions)@[uuid@].session.phone_num,
        r ==> final(sessions)@[uuid@].session.sms_sent_at == old(sessions)@[uuid@].session.sms_sent_at,
        r ==> final(sessions)@[uuid@].expires_at == old(sessions)@[uuid@].expires_at,
        r ==> final(sessions)@.remove(uuid@) == old(sessions)@.remove(uuid@),
{
    let rec: Option<SessionRecord> = match sessions.m.get(uuid) {
        Some(rc) => if now < rc.expires_at {
            Some(rc.clone())
        } else {
            None
        },
        None => None,
    };
    match rec {
        Some(mut rc) => {
            rc.session.sms_verified = true;
            sessions.m.insert(uuid.to_owned(), rc);
            proof {
                assert(sessions@.remove(uuid@) =~= old(sessions)@.remove(uuid@));
            }
            true
        },
        None => false,
    }
}

/// Deletes the session outright; called exactly once, when the session is
/// consumed into a durable user, to prevent replay.
pub fn delete_session(sessions: &mut SessionStore, uuid: &str)
    ensures
        final(sessions)@ == old(sessions)@.remove(uuid@),
{
    sessions.m.remove(uuid);
}

/// Consuming a session deletes its record, so a load of the same identifier
/// afterwards finds nothing, at any later time.
pub proof fn lemma_consumed_session_not_found(
    m: Map<Seq<char>, SessionRecord>,
    key: Seq<char>,
    now: int,
)
    ensures
        !session_live(m.remove(key), key, now),
{
}

} // verus!
