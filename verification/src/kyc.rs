//! KYC classification enumerations: verification tiers and jurisdictions.

use vstd::prelude::*;

verus! {

/// KYC verification levels for regulatory compliance.
///
/// The ordering is meaningful: higher tiers imply higher default trade
/// limits (see `crate::limits::trade_limit_for_level`).
#[derive(Clone, Copy, PartialEq, Eq, Structural, PartialOrd, Ord, Debug)]
pub enum KycLevel {
    /// Basic verification (email, phone)
    Basic,
    /// Standard verification (ID document)
    Standard,
    /// Enhanced verification (video call, address proof)
    Enhanced,
    /// Institutional (corporate KYC/KYB)
    Institutional,
}

impl Default for KycLevel {
    fn default() -> (r: Self)
        ensures
            r == KycLevel::Basic,
    {
        KycLevel::Basic
    }
}

/// Supported jurisdictions.
///
/// This is a closed set with fixed ordinal positions 0-5 used as bit
/// indices in admissibility masks (see
/// `crate::limits::is_jurisdiction_in_bitmask`); external callers encode
/// bitmasks against this exact ordering, so it must never be reordered.
#[derive(Clone, Copy, PartialEq, Eq, Structural, Debug)]
pub enum Jurisdiction {
    /// Japan (primary market)
    Japan,
    /// Singapore
    Singapore,
    /// Hong Kong
    HongKong,
    /// EU
    Eu,
    /// USA (restricted)
    Usa,
    /// Other
    Other,
}

impl Default for Jurisdiction {
    fn default() -> (r: Self)
        ensures
            r == Jurisdiction::Japan,
    {
        Jurisdiction::Japan
    }
}

} // verus!
