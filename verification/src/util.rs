use vstd::prelude::*;

verus! {

/// Saturating sum of two clock values, used wherever an absolute expiry
/// time is derived from a timestamp and a time-to-live.
pub open spec fn sat_add_i64(a: int, b: int) -> int {
    if a + b > i64::MAX {
        i64::MAX as int
    } else if a + b < i64::MIN {
        i64::MIN as int
    } else {
        a + b
    }
}

/// Saturating increment of an attempt counter.
pub open spec fn sat_inc_u32(c: u32) -> u32 {
    if c < u32::MAX {
        (c + 1) as u32
    } else {
        c
    }
}

/// Computes an absolute expiry time from a timestamp and a time-to-live,
/// clamping instead of overflowing.
pub fn clock_add(a: i64, b: i64) -> (r: i64)
    ensures
        r as int == sat_add_i64(a as int, b as int),
{
    match a.checked_add(b) {
        Some(v) => v,
        None => if b > 0 {
            i64::MAX
        } else {
            i64::MIN
        },
    }
}

/// Clones an optional string; the copy holds the same characters.
pub fn clone_opt_string(o: &Option<String>) -> (r: Option<String>)
    ensures
        r == *o,
{
    match o {
        Some(s) => Some(s.clone()),
        None => None,
    }
}

} // verus!
