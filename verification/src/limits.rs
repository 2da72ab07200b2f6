//! Policy tables: per-tier trade limits and jurisdiction admissibility,
//! both the fixed disallow rule and the configurable bitmask form.

use vstd::prelude::*;
use crate::kyc::KycLevel;
use crate::kyc::Jurisdiction;

verus! {

/// Whether a jurisdiction is generally allowed for transfers: every
/// jurisdiction is allowed except Usa.
pub open spec fn spec_jurisdiction_allowed(j: Jurisdiction) -> bool {
    j != Jurisdiction::Usa
}

/// Fixed bit position of a jurisdiction in an admissibility mask.
/// This ordinal mapping is a wire/protocol contract:
/// 0=Japan, 1=Singapore, 2=HongKong, 3=Eu, 4=Usa, 5=Other.
pub open spec fn jurisdiction_bit(j: Jurisdiction) -> u8 {
    match j {
        Jurisdiction::Japan => 0,
        Jurisdiction::Singapore => 1,
        Jurisdiction::HongKong => 2,
        Jurisdiction::Eu => 3,
        Jurisdiction::Usa => 4,
        Jurisdiction::Other => 5,
    }
}

/// Whether the bit at a jurisdiction's fixed ordinal is set in the mask.
pub open spec fn spec_jurisdiction_in_bitmask(j: Jurisdiction, bitmask: u8) -> bool {
    (bitmask >> jurisdiction_bit(j)) & 1 == 1
}

/// The mask with exactly the given jurisdiction's bit set.
pub open spec fn jurisdiction_mask(j: Jurisdiction) -> u8 {
    1u8 << jurisdiction_bit(j)
}

/// Default per-transaction trade limit for a KYC level, in the asset's
/// smallest denomination at 6 decimal places. Institutional maps to the
/// "unlimited" sentinel, the maximum representable value.
pub open spec fn spec_trade_limit(level: KycLevel) -> u64 {
    match level {
        KycLevel::Basic => 100_000_000_000,
        KycLevel::Standard => 10_000_000_000_000,
        KycLevel::Enhanced => 100_000_000_000_000,
        KycLevel::Institutional => u64::MAX,
    }
}

/// Check if a jurisdiction is generally allowed for transfers
pub fn jurisdiction_allowed(j: &Jurisdiction) -> (r: bool)
    ensures
        r == spec_jurisdiction_allowed(*j),
{
    match j {
        Jurisdiction::Usa => false,
        _ => true,
    }
}

/// Check if a jurisdiction is included in a bitmask
/// Bit mapping: 0=Japan, 1=Singapore, 2=HongKong, 3=Eu, 4=Usa, 5=Other
pub fn is_jurisdiction_in_bitmask(j: &Jurisdiction, bitmask: u8) -> (r: bool)
    ensures
        r == spec_jurisdiction_in_bitmask(*j, bitmask),
{
    let bit: u8 = match j {
        Jurisdiction::Japan => 0,
        Jurisdiction::Singapore => 1,
        Jurisdiction::HongKong => 2,
        Jurisdiction::Eu => 3,
        Jurisdiction::Usa => 4,
        Jurisdiction::Other => 5,
    };
    (bitmask >> bit) & 1 == 1
}

/// Get the default per-transaction trade limit for a KYC level (in smallest unit, 6 decimals)
pub fn trade_limit_for_level(level: &KycLevel) -> (r: u64)
    ensures
        r == spec_trade_limit(*level),
{
    match level {
        KycLevel::Basic => 100_000_000_000,
        KycLevel::Standard => 10_000_000_000_000,
        KycLevel::Enhanced => 100_000_000_000_000,
        KycLevel::Institutional => u64::MAX,
    }
}

/// Law: the default trade limits are strictly ordered by tier,
/// Basic < Standard < Enhanced < Institutional (unlimited).
pub proof fn lemma_trade_limits_ordered()
    ensures
        spec_trade_limit(KycLevel::Basic) < spec_trade_limit(KycLevel::Standard),
        spec_trade_limit(KycLevel::Standard) < spec_trade_limit(KycLevel::Enhanced),
        spec_trade_limit(KycLevel::Enhanced) < spec_trade_limit(KycLevel::Institutional),
{
}

/// Law: bitmask round-trip. A mask with only one jurisdiction's bit set
/// admits that jurisdiction and no other.
pub proof fn lemma_bitmask_round_trip(j: Jurisdiction, k: Jurisdiction)
    ensures
        spec_jurisdiction_in_bitmask(j, jurisdiction_mask(j)),
        j != k ==> !spec_jurisdiction_in_bitmask(k, jurisdiction_mask(j)),
{
    let b: u8 = jurisdiction_bit(j);
    let c: u8 = jurisdiction_bit(k);
    assert(((1u8 << b) >> b) & 1 == 1) by (bit_vector)
        requires
            b <= 5,
    ;
    assert(b != c ==> ((1u8 << b) >> c) & 1 == 0) by (bit_vector)
        requires
            b <= 5 && c <= 5,
    ;
}

} // verus!
