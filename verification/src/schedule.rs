//! Cycle scheduling: buffer depth and jittered cadence.
//!
//! The retry buffer is sized to survive one full day of outage at the
//! nominal cadence. Between cycles the device sleeps for the nominal
//! period plus a random jitter of up to a tenth of the period either way,
//! so that many devices sharing one collector drift apart instead of
//! retrying in lockstep after a common outage ends.

use vstd::prelude::*;

use rand::RngExt;

verus! {

/// Seconds in one day: the outage the retry buffer is sized to survive.
pub const SECONDS_PER_DAY: u64 = 86400;

/// The buffer depth that holds one day of batches at the given cadence:
/// the ceiling of `SECONDS_PER_DAY / period_secs`.
pub open spec fn spec_capacity_for_period(period_secs: u64) -> int
    recommends
        1 <= period_secs,
{
    (SECONDS_PER_DAY + period_secs - 1) / (period_secs as int)
}

/// Computes the retry-buffer capacity for a polling period: enough slots
/// for one full day of batches at the nominal cadence, and never zero.
pub fn capacity_for_period(period_secs: u64) -> (capacity: usize)
    requires
        1 <= period_secs,
    ensures
        capacity == spec_capacity_for_period(period_secs),
        1 <= capacity,
{
    if period_secs >= SECONDS_PER_DAY {
        proof {
            assert(spec_capacity_for_period(period_secs) == 1) by (nonlinear_arith)
                requires
                    SECONDS_PER_DAY <= period_secs,
                    SECONDS_PER_DAY == 86400,
            ;
        }
        1
    } else {
        let capacity = (SECONDS_PER_DAY + period_secs - 1) / period_secs;
        proof {
            assert(1 <= capacity && capacity <= SECONDS_PER_DAY) by (nonlinear_arith)
                requires
                    1 <= period_secs,
                    period_secs < SECONDS_PER_DAY,
                    capacity == (SECONDS_PER_DAY + period_secs - 1) / (period_secs as int),
                    SECONDS_PER_DAY == 86400,
            ;
        }
        capacity as usize
    }
}

/// Relies on rand's `random_range` over an inclusive integer range: a draw
/// uniform within the range. `spread >= 0` keeps the range nonempty, which
/// the call would otherwise refuse.
#[verifier::external_body]
fn draw_jitter(spread: i64) -> (jitter: i64)
    requires
        0 <= spread,
    ensures
        -spread <= jitter <= spread,
{
    rand::rng().random_range(-spread..=spread)
}

/// The pause before the next cycle: the nominal period, give or take a
/// jitter of at most a tenth of it, drawn fresh every cycle. The cadence
/// is re-armed the same way whether the cycle succeeded or failed; the
/// fixed period is the only backoff.
pub fn next_delay_secs(period_secs: u64) -> (delay: u64)
    requires
        period_secs + period_secs / 10 <= u64::MAX,
    ensures
        period_secs - period_secs / 10 <= delay <= period_secs + period_secs / 10,
{
    let spread = period_secs / 10;
    let jitter = draw_jitter(spread as i64);
    if jitter >= 0 {
        period_secs + (jitter as u64)
    } else {
        period_secs - ((-jitter) as u64)
    }
}

} // verus!
