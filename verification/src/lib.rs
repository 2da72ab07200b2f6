//! Compliance eligibility engine for value transfers between registered
//! wallets: KYC-tier trade limits, jurisdiction admissibility, entry validity
//! over time, and rolling daily-volume accounting.

pub mod kyc;
pub mod limits;
pub mod whitelist;
pub mod state;

pub use kyc::KycLevel;
pub use kyc::Jurisdiction;
pub use limits::jurisdiction_allowed;
pub use limits::is_jurisdiction_in_bitmask;
pub use limits::trade_limit_for_level;
pub use whitelist::SECONDS_PER_DAY;
pub use whitelist::is_entry_valid;
pub use whitelist::can_transfer;
pub use whitelist::is_jurisdiction_allowed_for_transfer;
pub use state::WhitelistEntry;
pub use state::KycRegistry;
