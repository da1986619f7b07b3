use vstd::prelude::*;
use vstd::hash_map::StringHashMap;
use crate::util::{clock_add, sat_add_i64, sat_inc_u32};

verus! {

/// One per-identifier failure counter together with its absolute expiry time.
/// The record counts every failed sign-in inside the lock window that was
/// opened by the first failure.
#[derive(PartialEq, Eq, Structural, Clone, Copy, Debug)]
pub struct CounterRecord {
    pub count: u32,
    pub expires_at: i64,
}

/// The sign-in attempt counters, keyed by the identifier they protect.
/// A record whose expiry has passed counts as absent.
pub struct CounterStore {
    m: StringHashMap<CounterRecord>,
}

impl View for CounterStore {
    type V = Map<Seq<char>, CounterRecord>;

    closed spec fn view(&self) -> Self::V {
        self.m@
    }
}

impl CounterStore {
    /// Creates an empty counter store.
    pub fn new() -> (r: CounterStore)
        ensures
            r@ == Map::<Seq<char>, CounterRecord>::empty(),
    {
        CounterStore { m: StringHashMap::new() }
    }
}

/// Whether a live (unexpired) counter exists for the key at time `now`.
pub open spec fn counter_live(m: Map<Seq<char>, CounterRecord>, key: Seq<char>, now: int) -> bool {
    m.contains_key(key) && now < m[key].expires_at
}

/// The counters after one failure is recorded for `key` at time `now`: a live
/// counter is incremented and keeps its expiry; otherwise a fresh counter
/// opens a lock window of `window` seconds.
pub open spec fn spec_record_failure(
    m: Map<Seq<char>, CounterRecord>,
    key: Seq<char>,
    now: int,
    window: int,
) -> Map<Seq<char>, CounterRecord> {
    if counter_live(m, key, now) {
        m.insert(
            key,
            CounterRecord { count: sat_inc_u32(m[key].count), expires_at: m[key].expires_at },
        )
    } else {
        m.insert(
            key,
            CounterRecord { count: 1, expires_at: sat_add_i64(now, window) as i64 },
        )
    }
}

/// Whether the identifier is locked out: a live counter exists and its count
/// has reached the configured maximum. An absent or expired counter is
/// treated as zero failures, hence not locked.
pub open spec fn spec_is_locked(
    m: Map<Seq<char>, CounterRecord>,
    key: Seq<char>,
    max_attempts: u32,
    now: int,
) -> bool {
    counter_live(m, key, now) && m[key].count >= max_attempts
}

/// Records one failed sign-in attempt for the identifier. The lock window is
/// opened only on the transition from absent to one; later failures extend
/// the count but never the expiry.
pub fn increament_sign_in_attempts(
    attempts: &mut CounterStore,
    email: &str,
    expirarion_time: i64,
    now: i64,
)
    ensures
        final(attempts)@ == spec_record_failure(
            old(attempts)@,
            email@,
            now as int,
            expirarion_time as int,
        ),
{
    let existing: Option<CounterRecord> = match attempts.m.get(email) {
        Some(r) => Some(*r),
        None => None,
    };
    match existing {
        Some(rec) => {
            if now < rec.expires_at {
                let c = if rec.count < u32::MAX {
                    rec.count + 1
                } else {
                    rec.count
                };
                attempts.m.insert(
                    email.to_owned(),
                    CounterRecord { count: c, expires_at: rec.expires_at },
                );
            } else {
                let e = clock_add(now, expirarion_time);
                attempts.m.insert(email.to_owned(), CounterRecord { count: 1, expires_at: e });
            }
        },
        None => {
            let e = clock_add(now, expirarion_time);
            attempts.m.insert(email.to_owned(), CounterRecord { count: 1, expires_at: e });
        },
    }
}

/// Whether a raw counter reading reaches the lockout threshold: the
/// comparison alone, callable on a count loaded from any store.
pub fn count_reaches_lock(count: u32, max_attempts: u32) -> (r: bool)
    ensures
        r == (count >= max_attempts),
{
    count >= max_attempts
}

/// Reports whether the identifier is locked out at time `now`. Absence of a
/// counter is a valid, common state and reports not locked.
pub fn is_locked(attempts: &CounterStore, email: &str, max_attempts: u32, now: i64) -> (r: bool)
    ensures
        r == spec_is_locked(attempts@, email@, max_attempts, now as int),
{
    match attempts.m.get(email) {
        Some(rec) => now < rec.expires_at && count_reaches_lock(rec.count, max_attempts),
        None => false,
    }
}

/// Unconditionally deletes the counter for the identifier; called only after
/// a successful authentication.
pub fn clear_sign_in_attempts(attempts: &mut CounterStore, email: &str)
    ensures
        final(attempts)@ == old(attempts)@.remove(email@),
{
    attempts.m.remove(email);
}

/// The counters after a sequence of failures for `key`, one per entry of
/// `times`, each recorded at that time.
pub open spec fn counters_after_failures(
    m: Map<Seq<char>, CounterRecord>,
    key: Seq<char>,
    times: Seq<i64>,
    window: int,
) -> Map<Seq<char>, CounterRecord>
    decreases times.len(),
{
    if times.len() == 0 {
        m
    } else {
        spec_record_failure(
            counters_after_failures(m, key, times.drop_last(), window),
            key,
            times.last() as int,
            window,
        )
    }
}

/// After a sequence of failures starting from no live counter, all inside the
/// lock window opened by the first, the counter holds exactly one count per
/// failure and expires when the window does.
pub proof fn lemma_failures_accumulate(
    m: Map<Seq<char>, CounterRecord>,
    key: Seq<char>,
    times: Seq<i64>,
    window: int,
)
    requires
        1 <= times.len() <= u32::MAX,
        !counter_live(m, key, times[0] as int),
        0 <= window,
        times[0] + window <= i64::MAX,
        forall|i: int, j: int| 0 <= i <= j < times.len() ==> times[i] <= times[j],
        forall|i: int| 0 < i < times.len() ==> (#[trigger] times[i]) < times[0] + window,
    ensures
        counters_after_failures(m, key, times, window).contains_key(key),
        counters_after_failures(m, key, times, window)[key].count == times.len(),
        counters_after_failures(m, key, times, window)[key].expires_at == times[0] + window,
    decreases times.len(),
{
    let sub = times.drop_last();
    if times.len() == 1 {
        assert(times.last() == times[0]);
        assert(counters_after_failures(m, key, sub, window) == m);
        assert(counters_after_failures(m, key, times, window) == spec_record_failure(
            m,
            key,
            times.last() as int,
            window,
        ));
        assert(sat_add_i64(times[0] as int, window) == times[0] + window);
    } else {
        assert(sub[0] == times[0]);
        lemma_failures_accumulate(m, key, sub, window);
        let before = counters_after_failures(m, key, sub, window);
        assert(counters_after_failures(m, key, times, window) == spec_record_failure(
            before,
            key,
            times.last() as int,
            window,
        ));
        assert(times.last() == times[times.len() - 1]);
        assert((times.last() as int) < times[0] + window);
        assert(counter_live(before, key, times.last() as int));
        assert(before[key].count == sub.len() < u32::MAX);
    }
}

/// For a sequence of N failed sign-in attempts on one identifier, all within
/// the lock window opened by the first and starting from no live counter:
/// the identifier is locked at a later check time exactly when N has reached
/// the configured maximum and the window has not yet elapsed. In particular
/// it is not locked for N below the maximum, locked from N equal to it, and
/// unlocked again once the window passes.
pub proof fn lemma_lockout_threshold(
    m: Map<Seq<char>, CounterRecord>,
    key: Seq<char>,
    times: Seq<i64>,
    window: int,
    max_attempts: u32,
    check: i64,
)
    requires
        1 <= times.len() <= u32::MAX,
        !counter_live(m, key, times[0] as int),
        0 <= window,
        times[0] + window <= i64::MAX,
        forall|i: int, j: int| 0 <= i <= j < times.len() ==> times[i] <= times[j],
        forall|i: int| 0 < i < times.len() ==> (#[trigger] times[i]) < times[0] + window,
    ensures
        spec_is_locked(counters_after_failures(m, key, times, window), key, max_attempts, check as int)
            == ((check as int) < times[0] + window && times.len() >= max_attempts),
{
    lemma_failures_accumulate(m, key, times, window);
}

/// A successful sign-in clears the counter, so the identifier is not locked
/// immediately afterwards, regardless of the prior failure count.
pub proof fn lemma_clear_unlocks(
    m: Map<Seq<char>, CounterRecord>,
    key: Seq<char>,
    max_attempts: u32,
    now: int,
)
    ensures
        !spec_is_locked(m.remove(key), key, max_attempts, now),
{
}

} // verus!
