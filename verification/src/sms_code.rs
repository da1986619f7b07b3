use vstd::prelude::*;
use vstd::hash_map::StringHashMap;
use crate::util::{clock_add, sat_add_i64, sat_inc_u32};

verus! {

/// One stored one-time code: the code itself, the number of wrong
/// submissions consumed so far, and the record's absolute expiry time.
pub struct SmsCodeRecord {
    pub code: String,
    pub attempts_count: u32,
    pub expires_at: i64,
}

impl Clone for SmsCodeRecord {
    fn clone(&self) -> (r: Self)
        ensures
            r == *self,
    {
        SmsCodeRecord {
            code: self.code.clone(),
            attempts_count: self.attempts_count,
            expires_at: self.expires_at,
        }
    }
}

/// The one-time-code records, keyed by session identifier. A record whose
/// expiry has passed counts as absent.
pub struct CodeStore {
    m: StringHashMap<SmsCodeRecord>,
}

impl View for CodeStore {
    type V = Map<Seq<char>, SmsCodeRecord>;

    closed spec fn view(&self) -> Self::V {
        self.m@
    }
}

impl CodeStore {
    /// Creates an empty code store.
    pub fn new() -> (r: CodeStore)
        ensures
            r@ == Map::<Seq<char>, SmsCodeRecord>::empty(),
    {
        CodeStore { m: StringHashMap::new() }
    }
}

/// Whether a live (unexpired) code record exists for the key at time `now`.
pub open spec fn code_live(m: Map<Seq<char>, SmsCodeRecord>, key: Seq<char>, now: int) -> bool {
    m.contains_key(key) && now < m[key].expires_at
}

/// The outcome of one code submission against a live record.
#[derive(PartialEq, Eq, Structural, Clone, Copy, Debug)]
pub enum SmsCodeOutcome {
    Correct,
    Wrong,
    TooManyAttempts,
}

/// What a submission decides, given the stored code and the attempts already
/// used: a budget strictly over the ceiling rejects outright; otherwise the
/// submission is compared, exactly and case-sensitively, to the stored code.
pub open spec fn spec_verify_outcome(
    stored: Seq<char>,
    attempts: u32,
    submitted: Seq<char>,
    max_attempts: u32,
) -> SmsCodeOutcome {
    if attempts > max_attempts {
        SmsCodeOutcome::TooManyAttempts
    } else if stored == submitted {
        SmsCodeOutcome::Correct
    } else {
        SmsCodeOutcome::Wrong
    }
}

/// The decision for one code submission, from the stored record's raw
/// fields: callable on a record loaded from any store. Which outcome comes
/// back is `spec_verify_outcome` exactly.
pub fn code_outcome(
    stored_code: &str,
    attempts_count: u32,
    submitted: &str,
    max_attempts: u32,
) -> (r: SmsCodeOutcome)
    ensures
        r == spec_verify_outcome(stored_code@, attempts_count, submitted@, max_attempts),
{
    if attempts_count > max_attempts {
        SmsCodeOutcome::TooManyAttempts
    } else {
        let stored = stored_code.to_owned();
        let given = submitted.to_owned();
        if stored == given {
            SmsCodeOutcome::Correct
        } else {
            SmsCodeOutcome::Wrong
        }
    }
}

/// Writes a fresh code record with the given validity window, unconditionally
/// overwriting any existing record: a resend invalidates the previous code
/// and resets the attempt budget to zero, even if it was exhausted.
pub fn store_code(codes: &mut CodeStore, uuid: &str, code: &str, expiration_time: i64, now: i64)
    ensures
        final(codes)@.contains_key(uuid@),
        final(codes)@[uuid@].code@ == code@,
        final(codes)@[uuid@].attempts_count == 0,
        final(codes)@[uuid@].expires_at == sat_add_i64(now as int, expiration_time as int),
        final(codes)@.remove(uuid@) == old(codes)@.remove(uuid@),
{
    let expires_at = clock_add(now, expiration_time);
    codes.m.insert(
        uuid.to_owned(),
        SmsCodeRecord { code: code.to_owned(), attempts_count: 0, expires_at },
    );
    proof {
        assert(codes@.remove(uuid@) =~= old(codes)@.remove(uuid@));
    }
}

/// Verifies a submitted code against the stored record. Against an absent or
/// expired record the result is `None`, reported distinctly from a wrong
/// code. An exhausted budget returns `TooManyAttempts` and mutates nothing;
/// a wrong submission consumes one attempt; a correct one mutates nothing.
pub fn verify_code(
    codes: &mut CodeStore,
    uuid: &str,
    code: &str,
    max_attempts: u32,
    now: i64,
) -> (r: Option<SmsCodeOutcome>)
    ensures
        r is Some <==> code_live(old(codes)@, uuid@, now as int),
        r is None ==> final(codes)@ == old(codes)@,
        r matches Some(o) ==> o == spec_verify_outcome(
            old(codes)@[uuid@].code@,
            old(codes)@[uuid@].attempts_count,
            code@,
            max_attempts,
        ),
        r matches Some(o) && o != SmsCodeOutcome::Wrong ==> final(codes)@ == old(codes)@,
        r matches Some(o) && o == SmsCodeOutcome::Wrong ==> final(codes)@.contains_key(uuid@)
            && final(codes)@[uuid@].code == old(codes)@[uuid@].code
            && final(codes)@[uuid@].attempts_count == sat_inc_u32(old(codes)@[uuid@].attempts_count)
            && final(codes)@[uuid@].expires_at == old(codes)@[uuid@].expires_at
            && final(codes)@.remove(uuid@) == old(codes)@.remove(uuid@),
{
    let rec: Option<SmsCodeRecord> = match codes.m.get(uuid) {
        Some(rc) => if now < rc.expires_at {
            Some(rc.clone())
        } else {
            None
        },
        None => None,
    };
    match rec {
        None => None,
        Some(mut rc) => {
            match code_outcome(rc.code.as_str(), rc.attempts_count, code, max_attempts) {
                SmsCodeOutcome::Wrong => {
                    rc.attempts_count = if rc.attempts_count < u32::MAX {
                        rc.attempts_count + 1
                    } else {
                        rc.attempts_count
                    };
                    codes.m.insert(uuid.to_owned(), rc);
                    proof {
                        assert(codes@.remove(uuid@) =~= old(codes)@.remove(uuid@));
                    }
                    Some(SmsCodeOutcome::Wrong)
                },
                o => Some(o),
            }
        },
    }
}

/// Reports whether a live code record exists: used to tell "no code was ever
/// sent, or it expired" apart from "a code exists but may be wrong."
pub fn get_code_exist(codes: &CodeStore, uuid: &str, now: i64) -> (r: bool)
    ensures
        r == code_live(codes@, uuid@, now as int),
{
    match codes.m.get(uuid) {
        Some(rc) => now < rc.expires_at,
        None => false,
    }
}

/// Reads the number of wrong submissions consumed against the live record,
/// or `None` when no live record exists.
pub fn get_code_attempts_count(codes: &CodeStore, uuid: &str, now: i64) -> (r: Option<u32>)
    ensures
        r is Some <==> code_live(codes@, uuid@, now as int),
        r matches Some(c) ==> c == codes@[uuid@].attempts_count,
{
    match codes.m.get(uuid) {
        Some(rc) => if now < rc.expires_at {
            Some(rc.attempts_count)
        } else {
            None
        },
        None => None,
    }
}

/// Once the attempt budget strictly exceeds the ceiling, every further
/// submission is rejected as `TooManyAttempts`, whatever code is submitted —
/// and since that outcome mutates nothing, it is stable until a fresh code
/// overwrites the record and resets the budget.
pub proof fn lemma_exhausted_budget_is_stable(
    stored: Seq<char>,
    attempts: u32,
    submitted: Seq<char>,
    max_attempts: u32,
)
    requires
        attempts > max_attempts,
    ensures
        spec_verify_outcome(stored, attempts, submitted, max_attempts)
            == SmsCodeOutcome::TooManyAttempts,
{
}

} // verus!
