//! When a cached registry answer may still be used.
use vstd::prelude::*;

verus! {

/// Seconds in an hour.
pub const SECONDS_PER_HOUR: u64 = 3600;

/// The cache lifetime in seconds for a lifetime given in hours.
pub fn ttl_secs(cache_ttl_hours: u64) -> (r: u64)
    requires
        cache_ttl_hours * 3600 <= u64::MAX,
    ensures
        r == cache_ttl_hours * 3600,
{
    cache_ttl_hours * SECONDS_PER_HOUR
}

/// An entry stored at `timestamp` (seconds since the epoch) is still fresh
/// at `now` when it is at most `ttl_secs` seconds old.
pub open spec fn is_fresh(now: u64, timestamp: i64, ttl_secs: u64) -> bool {
    now - timestamp <= ttl_secs
}

/// Whether an entry stored at `timestamp` is still fresh at `now`.
pub fn entry_is_fresh(now: u64, timestamp: i64, ttl_secs: u64) -> (r: bool)
    ensures
        r == is_fresh(now, timestamp, ttl_secs),
{
    let age: i128 = (now as i128) - (timestamp as i128);
    age <= ttl_secs as i128
}

/// An entry that is fresh now was fresh at every earlier instant since it
/// was stored.
pub proof fn law_freshness_only_expires(t1: u64, t2: u64, timestamp: i64, ttl_secs: u64)
    requires
        t1 <= t2,
        is_fresh(t2, timestamp, ttl_secs),
    ensures
        is_fresh(t1, timestamp, ttl_secs),
{
}

} // verus!
