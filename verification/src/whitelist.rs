//! Entry validity over time and the rolling daily-volume rate limiter.

use vstd::prelude::*;
use crate::kyc::Jurisdiction;
use crate::limits::spec_jurisdiction_allowed;

verus! {

/// Length of the rolling accounting window, in seconds.
pub const SECONDS_PER_DAY: i64 = 86400;

/// An entry is valid when it is active and either never expires
/// (expiry 0) or the current time is strictly before the expiry.
pub open spec fn spec_entry_valid(is_active: bool, expiry_timestamp: i64, current_time: i64) -> bool {
    is_active && (expiry_timestamp == 0 || current_time < expiry_timestamp)
}

/// Addition on u64 that clamps at the maximum representable value
/// instead of wrapping.
pub open spec fn sat_add_u64(a: u64, b: u64) -> u64 {
    if a + b > u64::MAX {
        u64::MAX
    } else {
        (a + b) as u64
    }
}

/// Volume that counts against the daily limit: the stored volume while
/// the current time lies inside the window
/// `[volume_reset_time, volume_reset_time + SECONDS_PER_DAY)`, and zero
/// once the window has rolled over (the stored volume is then stale).
pub open spec fn spec_effective_volume(daily_volume: u64, volume_reset_time: i64, current_time: i64) -> u64 {
    if current_time - volume_reset_time >= SECONDS_PER_DAY {
        0
    } else {
        daily_volume
    }
}

/// Whether a transfer of `amount` is permitted: the entry must be valid;
/// a zero daily limit means unlimited; otherwise the effective volume
/// plus the amount, added with saturation, must not exceed the limit.
/// Saturation makes the comparison conservative: a would-be overflow
/// reads as "exceeds limit", never as "fits".
pub open spec fn spec_can_transfer(
    is_active: bool,
    expiry_timestamp: i64,
    daily_limit: u64,
    daily_volume: u64,
    volume_reset_time: i64,
    amount: u64,
    current_time: i64,
) -> bool {
    if !spec_entry_valid(is_active, expiry_timestamp, current_time) {
        false
    } else if daily_limit == 0 {
        true
    } else {
        sat_add_u64(spec_effective_volume(daily_volume, volume_reset_time, current_time), amount)
            <= daily_limit
    }
}

/// Check if a whitelist entry is valid for transfers
pub fn is_entry_valid(is_active: bool, expiry_timestamp: i64, current_time: i64) -> (r: bool)
    ensures
        r == spec_entry_valid(is_active, expiry_timestamp, current_time),
{
    is_active && (expiry_timestamp == 0 || current_time < expiry_timestamp)
}

/// Check if transfer amount is within daily limit
pub fn can_transfer(
    is_active: bool,
    expiry_timestamp: i64,
    daily_limit: u64,
    daily_volume: u64,
    volume_reset_time: i64,
    amount: u64,
    current_time: i64,
) -> (r: bool)
    requires
        spec_entry_valid(is_active, expiry_timestamp, current_time) && daily_limit != 0 ==> (
            i64::MIN <= current_time - volume_reset_time <= i64::MAX
        ),
    ensures
        r == spec_can_transfer(
            is_active,
            expiry_timestamp,
            daily_limit,
            daily_volume,
            volume_reset_time,
            amount,
            current_time,
        ),
{
    if !is_entry_valid(is_active, expiry_timestamp, current_time) {
        return false;
    }
    if daily_limit == 0 {
        return true;  // Unlimited
    }

    let effective_volume: u64 = if current_time - volume_reset_time >= SECONDS_PER_DAY {
        0
    } else {
        daily_volume
    };

    effective_volume.saturating_add(amount) <= daily_limit
}

/// Check if jurisdiction allows transfers (USA restricted)
pub fn is_jurisdiction_allowed_for_transfer(jurisdiction: &Jurisdiction) -> (r: bool)
    ensures
        r == spec_jurisdiction_allowed(*jurisdiction),
{
    match jurisdiction {
        Jurisdiction::Usa => false,
        _ => true,
    }
}

/// Law: an entry that is not active is never valid, whatever its expiry.
pub proof fn lemma_inactive_never_valid(expiry_timestamp: i64, current_time: i64)
    ensures
        !spec_entry_valid(false, expiry_timestamp, current_time),
{
}

/// Law: for a non-zero expiry, an active entry is valid exactly when the
/// current time is strictly before the expiry (the boundary is exclusive).
pub proof fn lemma_valid_iff_before_expiry(expiry_timestamp: i64, current_time: i64)
    requires
        expiry_timestamp != 0,
    ensures
        spec_entry_valid(true, expiry_timestamp, current_time) == (current_time < expiry_timestamp),
{
}

/// Law: a zero daily limit means unlimited. A valid entry with daily
/// limit 0 can transfer any amount.
pub proof fn lemma_zero_limit_unlimited(
    is_active: bool,
    expiry_timestamp: i64,
    daily_volume: u64,
    volume_reset_time: i64,
    amount: u64,
    current_time: i64,
)
    requires
        spec_entry_valid(is_active, expiry_timestamp, current_time),
    ensures
        spec_can_transfer(
            is_active,
            expiry_timestamp,
            0,
            daily_volume,
            volume_reset_time,
            amount,
            current_time,
        ),
{
}

/// Law: once the window has rolled over, the stored volume is ignored
/// entirely; the decision is the same as with a stored volume of zero.
pub proof fn lemma_rollover_ignores_stored_volume(
    is_active: bool,
    expiry_timestamp: i64,
    daily_limit: u64,
    daily_volume: u64,
    volume_reset_time: i64,
    amount: u64,
    current_time: i64,
)
    requires
        current_time - volume_reset_time >= SECONDS_PER_DAY,
    ensures
        spec_can_transfer(
            is_active,
            expiry_timestamp,
            daily_limit,
            daily_volume,
            volume_reset_time,
            amount,
            current_time,
        ) == spec_can_transfer(
            is_active,
            expiry_timestamp,
            daily_limit,
            0,
            volume_reset_time,
            amount,
            current_time,
        ),
{
}

/// Law: saturation is conservative. When the effective volume plus the
/// amount exceeds the maximum representable value, the transfer is
/// refused for every finite non-zero limit (below the saturation point);
/// the sum never wraps below the limit.
pub proof fn lemma_overflowing_sum_is_refused(
    is_active: bool,
    expiry_timestamp: i64,
    daily_limit: u64,
    daily_volume: u64,
    volume_reset_time: i64,
    amount: u64,
    current_time: i64,
)
    requires
        daily_limit != 0,
        daily_limit < u64::MAX,
        spec_effective_volume(daily_volume, volume_reset_time, current_time) + amount > u64::MAX,
    ensures
        !spec_can_transfer(
            is_active,
            expiry_timestamp,
            daily_limit,
            daily_volume,
            volume_reset_time,
            amount,
            current_time,
        ),
{
}

} // verus!
