//! Derived metrics shown on the dashboard: the transactions-per-second
//! estimate taken from a performance sample, and a validator's block
//! production success rate.
//!
//! The success rate is kept in integer tenths of a percent so that the
//! arithmetic stays exact; rendering code turns the tenths into a
//! one-decimal display.

use vstd::prelude::*;

verus! {

/// Transactions per second derived from one performance sample, by
/// truncating integer division. A sample whose period is zero would
/// divide by zero; it is treated as a degenerate sample and yields a
/// rate of zero instead of a fault.
pub open spec fn tps_of(num_transactions: u64, sample_period_secs: u64) -> u64 {
    if sample_period_secs == 0 {
        0
    } else {
        num_transactions / sample_period_secs
    }
}

/// A validator's success rate in tenths of a percent (truncated), i.e.
/// `1000 * produced / assigned`. A validator with no assigned slots has a
/// rate of zero rather than an undefined one.
pub open spec fn success_tenths_of(assigned: u64, produced: u64) -> int {
    if assigned == 0 {
        0
    } else {
        (1000 * produced) / (assigned as int)
    }
}

/// Compute the dashboard's TPS reading from a performance sample's raw
/// transaction count and sample period.
pub fn compute_tps(num_transactions: u64, sample_period_secs: u64) -> (tps: u64)
    ensures
        tps == tps_of(num_transactions, sample_period_secs),
{
    if sample_period_secs == 0 {
        0
    } else {
        num_transactions / sample_period_secs
    }
}

/// A validator's success rate in tenths of a percent. The rate is returned
/// as `u128` because `1000 * produced` can exceed `u64` when a validator
/// produced more blocks than it was assigned slots.
pub fn success_tenths(assigned: u64, produced: u64) -> (tenths: u128)
    ensures
        tenths == success_tenths_of(assigned, produced),
{
    if assigned == 0 {
        0
    } else {
        (1000u128 * (produced as u128)) / (assigned as u128)
    }
}

/// The success rate split for display: the whole percent part and the
/// single tenths digit, so a caller can print `whole.tenth %`.
pub fn success_percent_parts(assigned: u64, produced: u64) -> (parts: (u128, u8))
    ensures
        parts.0 == success_tenths_of(assigned, produced) / 10,
        parts.1 == success_tenths_of(assigned, produced) % 10,
{
    let tenths = success_tenths(assigned, produced);
    (tenths / 10, (tenths % 10) as u8)
}

} // verus!
