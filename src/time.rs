//! Time arithmetic on ledger timestamps (seconds).

use vstd::prelude::*;

verus! {

/// Seconds in one day.
pub const SECONDS_PER_DAY: u64 = 86400;

/// `timestamp` moved `days` whole days later.
pub fn add_days(timestamp: u64, days: u64) -> (r: u64)
    requires
        timestamp + days * SECONDS_PER_DAY <= u64::MAX,
    ensures
        r == timestamp + days * SECONDS_PER_DAY,
{
    proof {
        assert(0 <= days * SECONDS_PER_DAY <= u64::MAX) by (nonlinear_arith)
            requires
                timestamp + days * SECONDS_PER_DAY <= u64::MAX,
        ;
    }
    timestamp + days * SECONDS_PER_DAY
}

/// Whether a deadline has been reached at time `now`.
pub fn is_expired(now: u64, expiry_time: u64) -> (r: bool)
    ensures
        r == (now >= expiry_time),
{
    now >= expiry_time
}

} // verus!
