//! Scenario sizing: the constants every settlement scenario posts with,
//! and how much each trader is funded and deposits.

use vstd::prelude::*;

verus! {

/// Intent expiration slot used across scenario posts: far enough out that
/// nothing expires mid-test.
pub const SCENARIO_EXPIRY_SLOT: u64 = 1_000_000;

/// Lower end of the price range both scenario intents post over.
pub const RANGE_MIN_FP: u64 = 40;

/// Upper end of the price range both scenario intents post over.
pub const RANGE_MAX_FP: u64 = 60;

/// The entry price a scenario match settles at: the overlap midpoint.
pub const ENTRY_FP: u64 = 50;

/// Default per-trader deposit floor.
pub const TRADER_DEPOSIT: u64 = 50_000_000;

/// `x * k`, saturating at `u64::MAX`.
pub open spec fn saturating_product(x: u64, k: u64) -> u64 {
    if x * k > u64::MAX {
        u64::MAX
    } else {
        (x * k) as u64
    }
}

/// The deposit each scenario trader makes: the floor, or eight collateral
/// buckets (saturating) when that is more, so that high-bucket
/// instruments can still fund several PMLCs.
pub open spec fn trader_deposit_spec(collateral_bucket: u64) -> u64 {
    let eight = saturating_product(collateral_bucket, 8);
    if TRADER_DEPOSIT >= eight {
        TRADER_DEPOSIT
    } else {
        eight
    }
}

fn saturating_mul(x: u64, k: u64) -> (r: u64)
    ensures
        r == saturating_product(x, k),
{
    match x.checked_mul(k) {
        Some(p) => p,
        None => u64::MAX,
    }
}

/// The deposit of each trader of a scenario on an instrument with
/// `collateral_bucket`: `max(TRADER_DEPOSIT, 8 * collateral_bucket)`,
/// the product saturating.
pub fn trader_deposit_for(collateral_bucket: u64) -> (deposit: u64)
    ensures
        deposit == trader_deposit_spec(collateral_bucket),
        deposit >= TRADER_DEPOSIT,
        deposit >= 8 * collateral_bucket || deposit == u64::MAX,
{
    let eight = saturating_mul(collateral_bucket, 8);
    if TRADER_DEPOSIT >= eight {
        TRADER_DEPOSIT
    } else {
        eight
    }
}

/// The token balance a funded trader starts with: twice the deposit,
/// saturating, so the deposit always fits.
pub fn funding_amount(deposit: u64) -> (amount: u64)
    ensures
        amount == saturating_product(deposit, 2),
        amount >= deposit,
{
    saturating_mul(deposit, 2)
}

} // verus!
