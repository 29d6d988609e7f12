use polyleverage_sim::scenario::{
    funding_amount, trader_deposit_for, ENTRY_FP, RANGE_MAX_FP, RANGE_MIN_FP,
    SCENARIO_EXPIRY_SLOT, TRADER_DEPOSIT,
};

#[test]
fn scenario_constants() {
    assert_eq!(SCENARIO_EXPIRY_SLOT, 1_000_000);
    assert_eq!((RANGE_MIN_FP, RANGE_MAX_FP, ENTRY_FP), (40, 60, 50));
    assert_eq!(ENTRY_FP, (RANGE_MIN_FP + RANGE_MAX_FP) / 2);
    assert_eq!(TRADER_DEPOSIT, 50_000_000);
}

#[test]
fn deposit_floor_for_small_buckets() {
    assert_eq!(trader_deposit_for(1_000_000), 50_000_000);
    assert_eq!(trader_deposit_for(6_250_000), 50_000_000);
}

#[test]
fn deposit_scales_with_large_buckets() {
    assert_eq!(trader_deposit_for(1_000_000_000), 8_000_000_000);
    assert_eq!(trader_deposit_for(100_000_000), 800_000_000);
}

#[test]
fn deposit_saturates() {
    assert_eq!(trader_deposit_for(u64::MAX / 4), u64::MAX);
}

#[test]
fn funding_is_twice_the_deposit() {
    assert_eq!(funding_amount(50_000_000), 100_000_000);
    assert_eq!(funding_amount(u64::MAX - 1), u64::MAX);
}
