use accredit_types::whitelist::is_entry_valid;
use accredit_types::whitelist::can_transfer;
use accredit_types::whitelist::is_jurisdiction_allowed_for_transfer;
use accredit_types::whitelist::SECONDS_PER_DAY;
use accredit_types::kyc::Jurisdiction;

#[test]
fn inactive_entry_is_never_valid() {
    assert!(!is_entry_valid(false, 0, 100));
    assert!(!is_entry_valid(false, 1000, 100));
    assert!(!is_entry_valid(false, 1000, 5000));
}

#[test]
fn zero_expiry_never_expires() {
    assert!(is_entry_valid(true, 0, 0));
    assert!(is_entry_valid(true, 0, i64::MAX));
}

#[test]
fn nonzero_expiry_is_exclusive_boundary() {
    // active, expiry=1000, now=1000 -> invalid (boundary excluded)
    assert!(!is_entry_valid(true, 1000, 1000));
    assert!(is_entry_valid(true, 1000, 999));
    assert!(!is_entry_valid(true, 1000, 1001));
}

#[test]
fn invalid_entry_cannot_transfer() {
    // inactive
    assert!(!can_transfer(false, 0, 0, 0, 0, 1, 100));
    // expired
    assert!(!can_transfer(true, 50, 0, 0, 0, 1, 100));
}

#[test]
fn zero_limit_is_unlimited() {
    // active, expiry=0, daily_limit=0: any amount goes through
    assert!(can_transfer(true, 0, 0, 0, 0, 1, 100));
    assert!(can_transfer(true, 0, 0, u64::MAX, 0, u64::MAX, 100));
}

#[test]
fn within_window_respects_limit() {
    // daily_limit=1000, daily_volume=900, window started 100 s ago
    let now: i64 = 10_000;
    let reset: i64 = now - 100;
    assert!(can_transfer(true, 0, 1000, 900, reset, 50, now));
    assert!(can_transfer(true, 0, 1000, 900, reset, 100, now));
    assert!(!can_transfer(true, 0, 1000, 900, reset, 150, now));
}

#[test]
fn rollover_at_exactly_one_day_resets_volume() {
    // now - volume_reset_time == 86400 exactly: stored volume is stale
    let reset: i64 = 5_000;
    let now: i64 = reset + SECONDS_PER_DAY;
    assert!(can_transfer(true, 0, 1000, 900, reset, 999, now));
    assert!(can_transfer(true, 0, 1000, 900, reset, 1000, now));
    assert!(!can_transfer(true, 0, 1000, 900, reset, 1001, now));
}

#[test]
fn one_second_before_rollover_volume_still_counts() {
    let reset: i64 = 5_000;
    let now: i64 = reset + SECONDS_PER_DAY - 1;
    assert!(!can_transfer(true, 0, 1000, 900, reset, 999, now));
    assert!(can_transfer(true, 0, 1000, 900, reset, 100, now));
}

#[test]
fn saturating_sum_never_wraps_below_limit() {
    // volume and amount both near the maximum: the sum saturates and
    // exceeds every finite limit instead of wrapping below it
    let near_max: u64 = u64::MAX - 5;
    assert!(!can_transfer(true, 0, 1000, near_max, 0, near_max, 100));
    assert!(!can_transfer(true, 0, u64::MAX - 1, near_max, 0, near_max, 100));
}

#[test]
fn volume_exactly_at_limit() {
    assert!(can_transfer(true, 0, 1000, 1000, 0, 0, 100));
    assert!(!can_transfer(true, 0, 1000, 1000, 0, 1, 100));
}

#[test]
fn transfer_jurisdiction_rule_restricts_usa_only() {
    assert!(is_jurisdiction_allowed_for_transfer(&Jurisdiction::Japan));
    assert!(is_jurisdiction_allowed_for_transfer(&Jurisdiction::Singapore));
    assert!(is_jurisdiction_allowed_for_transfer(&Jurisdiction::HongKong));
    assert!(is_jurisdiction_allowed_for_transfer(&Jurisdiction::Eu));
    assert!(!is_jurisdiction_allowed_for_transfer(&Jurisdiction::Usa));
    assert!(is_jurisdiction_allowed_for_transfer(&Jurisdiction::Other));
}
