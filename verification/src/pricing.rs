//! Off-chain price normalization.
//!
//! Pyth publishes a dollar price as a `(raw, expo)` pair; the real value
//! is `raw * 10^expo`. The program requires every price in its `(0, 1e18)`
//! fixed-point, so a price is normalized against a whole-dollar reference
//! ceiling: `price_fp = raw * 10^(18 + expo) / reference_usd`.

use vstd::prelude::*;

verus! {

/// The program's price fixed-point unit (1.0 == 1e18).
pub const PRICE_ONE: u128 = 1_000_000_000_000_000_000;

/// `10^n`.
pub open spec fn pow10(n: nat) -> nat
    decreases n,
{
    if n == 0 {
        1
    } else {
        10 * pow10((n - 1) as nat)
    }
}

/// The decimal shift that moves a Pyth price with exponent `expo` into
/// the 18-decimal fixed-point.
pub open spec fn price_shift(expo: i32) -> int {
    18 + expo
}

/// `raw * 10^(18 + expo)`, the price scaled to 18 decimals (meaningful
/// when the shift is not negative).
pub open spec fn scaled_price(raw: u64, expo: i32) -> int {
    raw * pow10(price_shift(expo) as nat)
}

/// The normalized fixed-point price `raw * 10^(18 + expo) / reference_usd`.
pub open spec fn normalized_price(raw: u64, expo: i32, reference_usd: u64) -> int {
    scaled_price(raw, expo) / (reference_usd as int)
}

/// The inputs `normalize_price` accepts: a shift of at least zero, a
/// scaled price that fits in a `u128`, a positive reference, and a
/// result strictly inside `(0, 1e18)`. On every other input the
/// normalization is refused (the reference ceiling must be raised, or
/// the exponent is out of range).
pub open spec fn normalize_price_accepts(raw: u64, expo: i32, reference_usd: u64) -> bool {
    &&& price_shift(expo) >= 0
    &&& scaled_price(raw, expo) <= u128::MAX
    &&& reference_usd > 0
    &&& 0 < normalized_price(raw, expo, reference_usd) < PRICE_ONE
}

proof fn lemma_pow10_positive(n: nat)
    ensures
        pow10(n) >= 1,
    decreases n,
{
    if n > 0 {
        lemma_pow10_positive((n - 1) as nat);
    }
}

proof fn lemma_pow10_monotonic(i: nat, j: nat)
    requires
        i <= j,
    ensures
        pow10(i) <= pow10(j),
    decreases j,
{
    if i < j {
        lemma_pow10_monotonic(i, (j - 1) as nat);
        lemma_pow10_positive((j - 1) as nat);
    }
}

/// Normalize a Pyth dollar price into the program's `(0, 1e18)`
/// fixed-point against `reference_usd`, a whole-dollar ceiling:
/// `price_fp = raw * 10^(18 + expo) / reference_usd`, rounded down.
pub fn normalize_price(raw: u64, expo: i32, reference_usd: u64) -> (price_fp: u64)
    requires
        normalize_price_accepts(raw, expo, reference_usd),
    ensures
        price_fp == normalized_price(raw, expo, reference_usd),
        0 < price_fp < PRICE_ONE,
{
    let ghost n: nat = price_shift(expo) as nat;
    proof {
        // A positive result needs a positive raw price, so 10^shift fits too.
        assert(raw >= 1) by (nonlinear_arith)
            requires
                scaled_price(raw, expo) / (reference_usd as int) > 0,
                reference_usd > 0,
                scaled_price(raw, expo) == raw * pow10(n),
        {
            if raw == 0 {
                assert(raw * pow10(n) == 0);
            }
        }
        assert(pow10(n) <= raw * pow10(n)) by (nonlinear_arith)
            requires
                raw >= 1,
        ;
        // 10^39 already exceeds u128::MAX, so the shift is at most 38.
        if n >= 39 {
            reveal_with_fuel(pow10, 40);
            lemma_pow10_monotonic(39, n);
            assert(pow10(39) > u128::MAX);
        }
    }
    let shift: i32 = 18 + expo;
    let mut factor: u128 = 1;
    let mut i: i32 = 0;
    while i < shift
        invariant
            0 <= i <= shift,
            shift == 18 + expo,
            n == shift,
            factor == pow10(i as nat),
            pow10(n) <= u128::MAX,
        decreases shift - i,
    {
        proof {
            lemma_pow10_monotonic((i + 1) as nat, n);
        }
        factor = factor * 10;
        i = i + 1;
    }
    let scaled: u128 = (raw as u128) * factor;
    let price: u128 = scaled / (reference_usd as u128);
    price as u64
}

/// The choice of reference scales out of a price ratio: wherever two
/// prices with the same exponent normalize exactly (the reference
/// divides both scaled prices), their normalized values stand in the
/// same ratio as the raw prices. This is what makes the program's
/// ratio-based PnL independent of the reference ceiling.
pub proof fn lemma_reference_scales_out(raw_a: u64, raw_b: u64, expo: i32, reference_usd: u64)
    requires
        price_shift(expo) >= 0,
        reference_usd > 0,
        scaled_price(raw_a, expo) % (reference_usd as int) == 0,
        scaled_price(raw_b, expo) % (reference_usd as int) == 0,
    ensures
        normalized_price(raw_a, expo, reference_usd) * raw_b == normalized_price(
            raw_b,
            expo,
            reference_usd,
        ) * raw_a,
{
    let p: int = pow10(price_shift(expo) as nat) as int;
    let r: int = reference_usd as int;
    let qa: int = (raw_a * p) / r;
    let qb: int = (raw_b * p) / r;
    assert(raw_a * p == qa * r) by (nonlinear_arith)
        requires
            (raw_a * p) % r == 0,
            r > 0,
            qa == (raw_a * p) / r,
    ;
    assert(raw_b * p == qb * r) by (nonlinear_arith)
        requires
            (raw_b * p) % r == 0,
            r > 0,
            qb == (raw_b * p) / r,
    ;
    assert(qa * raw_b == qb * raw_a) by (nonlinear_arith)
        requires
            raw_a * p == qa * r,
            raw_b * p == qb * r,
            r > 0,
    ;
}

/// Normalization rounds down: the normalized price times the reference
/// is at most the scaled price and one more reference exceeds it, with
/// equality exactly when the reference divides the scaled price.
pub proof fn lemma_normalized_floor(raw: u64, expo: i32, reference_usd: u64)
    requires
        price_shift(expo) >= 0,
        reference_usd > 0,
    ensures
        normalized_price(raw, expo, reference_usd) * reference_usd <= scaled_price(raw, expo),
        scaled_price(raw, expo) < (normalized_price(raw, expo, reference_usd) + 1) * reference_usd,
        (scaled_price(raw, expo) % (reference_usd as int) == 0) <==> (normalized_price(
            raw,
            expo,
            reference_usd,
        ) * reference_usd == scaled_price(raw, expo)),
{
    let s: int = scaled_price(raw, expo);
    let r: int = reference_usd as int;
    let q: int = s / r;
    assert(q * r <= s && s < (q + 1) * r && (s % r == 0 <==> q * r == s)) by (nonlinear_arith)
        requires
            r > 0,
            q == s / r,
    {
        assert(s == q * r + s % r);
        assert(0 <= s % r < r);
    }
}

/// The scale factor is exactly `10^(18 + expo)`: at exponent -18 the
/// price is not scaled at all, and each step up in the exponent scales
/// the price by exactly ten more. So a price published one exponent
/// higher normalizes as ten times the raw price at the lower exponent.
pub proof fn lemma_exponent_steps_by_ten(raw: u64, expo: i32, reference_usd: u64)
    requires
        price_shift(expo) >= 0,
        expo < i32::MAX,
        10 * raw <= u64::MAX,
        reference_usd > 0,
    ensures
        scaled_price(raw, -18i32) == raw,
        scaled_price(raw, (expo + 1) as i32) == 10 * scaled_price(raw, expo),
        normalized_price(raw, (expo + 1) as i32, reference_usd) == normalized_price(
            (10 * raw) as u64,
            expo,
            reference_usd,
        ),
{
    let n: nat = price_shift(expo) as nat;
    assert(price_shift((expo + 1) as i32) as nat == n + 1);
    assert(pow10(n + 1) == 10 * pow10(n));
    assert(price_shift(-18i32) == 0);
    assert(pow10(0) == 1);
    assert(raw * pow10(0) == raw);
    assert(scaled_price(raw, -18i32) == raw * pow10(0));
    assert(raw * pow10(n + 1) == 10 * (raw * pow10(n))) by (nonlinear_arith)
        requires
            pow10(n + 1) == 10 * pow10(n),
    ;
    assert(((10 * raw) as u64) * pow10(n) == 10 * (raw * pow10(n))) by (nonlinear_arith)
        requires
            ((10 * raw) as u64) == 10 * raw,
    ;
}

} // verus!
