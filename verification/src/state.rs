//! Stored records: the per-wallet whitelist entry with its rate-limit
//! state, and the per-asset registry with its policy flags.

use vstd::prelude::*;
use crate::kyc::KycLevel;
use crate::kyc::Jurisdiction;
use crate::limits::spec_jurisdiction_allowed;
use crate::whitelist::SECONDS_PER_DAY;
use crate::whitelist::spec_entry_valid;
use crate::whitelist::spec_can_transfer;
use crate::whitelist::sat_add_u64;

verus! {

/// Whitelist entry for a verified wallet.
///
/// Wallet and registry keys are opaque 32-byte identifiers resolved by
/// the surrounding system; the KYC hash is an uninterpreted fixed-size
/// byte block.
#[derive(Clone, Copy, Debug)]
pub struct WhitelistEntry {
    /// Wallet address
    pub wallet: [u8; 32],
    /// Associated KYC registry (foreign reference, not containment)
    pub registry: [u8; 32],
    /// KYC verification level
    pub kyc_level: KycLevel,
    /// User's jurisdiction
    pub jurisdiction: Jurisdiction,
    /// Encrypted KYC data hash (opaque to this core)
    pub kyc_hash: [u8; 32],
    /// Is entry active
    pub is_active: bool,
    /// Daily transaction limit (0 = unlimited / use default per-level limit)
    pub daily_limit: u64,
    /// Accumulated daily volume in the current window
    pub daily_volume: u64,
    /// Last volume reset timestamp (window start)
    pub volume_reset_time: i64,
    /// Verification timestamp
    pub verified_at: i64,
    /// Expiry timestamp (0 = never expires)
    pub expiry_timestamp: i64,
    /// Last activity timestamp
    pub last_activity: i64,
    /// Creation timestamp
    pub created_at: i64,
    /// Bump seed
    pub bump: u8,
}

/// The entry state after a transfer of `amount` at `current_time` has
/// been recorded: on a window rollover the volume starts over at exactly
/// this transfer's amount and the window start moves to `current_time`;
/// otherwise the amount is added to the stored volume with saturation.
/// The last-activity timestamp is updated unconditionally; every other
/// field is unchanged.
pub open spec fn spec_record_transfer(e: WhitelistEntry, amount: u64, current_time: i64) -> WhitelistEntry {
    if current_time - e.volume_reset_time >= SECONDS_PER_DAY {
        WhitelistEntry {
            daily_volume: amount,
            volume_reset_time: current_time,
            last_activity: current_time,
            ..e
        }
    } else {
        WhitelistEntry {
            daily_volume: sat_add_u64(e.daily_volume, amount),
            last_activity: current_time,
            ..e
        }
    }
}

impl WhitelistEntry {
    /// Check if entry is valid for transfers
    pub fn is_valid(&self, current_time: i64) -> (r: bool)
        ensures
            r == spec_entry_valid(self.is_active, self.expiry_timestamp, current_time),
    {
        crate::whitelist::is_entry_valid(self.is_active, self.expiry_timestamp, current_time)
    }

    /// Check if transfer amount is within daily limit. Pure: never
    /// mutates stored volume, so it is safe to call speculatively.
    pub fn can_transfer(&self, amount: u64, current_time: i64) -> (r: bool)
        requires
            spec_entry_valid(self.is_active, self.expiry_timestamp, current_time)
                && self.daily_limit != 0 ==> (
                i64::MIN <= current_time - self.volume_reset_time <= i64::MAX
            ),
        ensures
            r == spec_can_transfer(
                self.is_active,
                self.expiry_timestamp,
                self.daily_limit,
                self.daily_volume,
                self.volume_reset_time,
                amount,
                current_time,
            ),
    {
        crate::whitelist::can_transfer(
            self.is_active,
            self.expiry_timestamp,
            self.daily_limit,
            self.daily_volume,
            self.volume_reset_time,
            amount,
            current_time,
        )
    }

    /// Update daily volume. Callers must have already evaluated
    /// `can_transfer` with the same amount and time: no re-validation is
    /// performed here (see `transfer_if_eligible` for the guarded form).
    pub fn record_transfer(&mut self, amount: u64, current_time: i64)
        requires
            i64::MIN <= current_time - old(self).volume_reset_time <= i64::MAX,
        ensures
            *final(self) == spec_record_transfer(*old(self), amount, current_time),
    {
        if current_time - self.volume_reset_time >= SECONDS_PER_DAY {
            self.daily_volume = amount;
            self.volume_reset_time = current_time;
        } else {
            self.daily_volume = self.daily_volume.saturating_add(amount);
        }
        self.last_activity = current_time;
    }

    /// Check and record as one operation: record the transfer exactly
    /// when it is permitted, and leave the entry untouched otherwise.
    /// This closes the ordering gap the separate check-then-mutate pair
    /// leaves open.
    pub fn transfer_if_eligible(&mut self, amount: u64, current_time: i64) -> (r: bool)
        requires
            spec_entry_valid(old(self).is_active, old(self).expiry_timestamp, current_time) ==> (
                i64::MIN <= current_time - old(self).volume_reset_time <= i64::MAX
            ),
        ensures
            r == spec_can_transfer(
                old(self).is_active,
                old(self).expiry_timestamp,
                old(self).daily_limit,
                old(self).daily_volume,
                old(self).volume_reset_time,
                amount,
                current_time,
            ),
            r ==> *final(self) == spec_record_transfer(*old(self), amount, current_time),
            !r ==> *final(self) == *old(self),
    {
        if self.can_transfer(amount, current_time) {
            self.record_transfer(amount, current_time);
            true
        } else {
            false
        }
    }

    /// Check if jurisdiction allows transfers
    pub fn jurisdiction_allowed(&self) -> (r: bool)
        ensures
            r == spec_jurisdiction_allowed(self.jurisdiction),
    {
        crate::whitelist::is_jurisdiction_allowed_for_transfer(&self.jurisdiction)
    }
}

/// Law: after a window rollover, the recorded volume is exactly the new
/// transfer's amount, never the stale stored volume plus the amount.
pub proof fn lemma_record_after_rollover(e: WhitelistEntry, amount: u64, current_time: i64)
    requires
        current_time - e.volume_reset_time >= SECONDS_PER_DAY,
    ensures
        spec_record_transfer(e, amount, current_time).daily_volume == amount,
        spec_record_transfer(e, amount, current_time).volume_reset_time == current_time,
{
}

/// KYC registry for a managed asset: coarse policy switches consulted by
/// the caller before the per-entry checks.
#[derive(Clone, Copy, Debug)]
pub struct KycRegistry {
    /// Registry authority (compliance officer)
    pub authority: [u8; 32],
    /// Associated asset identifier
    pub mint: [u8; 32],
    /// Total whitelisted wallets (advisory, not authoritative)
    pub whitelist_count: u64,
    /// Is registry active
    pub is_active: bool,
    /// Require KYC for all transfers
    pub require_kyc: bool,
    /// Allow transfers between verified wallets only
    pub verified_only: bool,
    /// Creation timestamp
    pub created_at: i64,
    /// Last updated timestamp
    pub updated_at: i64,
    /// Bump seed
    pub bump: u8,
}

impl KycRegistry {
    /// Whether the registry's checks are in force at all.
    pub fn is_active(&self) -> (r: bool)
        ensures
            r == self.is_active,
    {
        self.is_active
    }
}

} // verus!
