use polyleverage_sim::normalize_price;
use polyleverage_sim::pricing::PRICE_ONE;

#[test]
fn normalizes_a_pyth_btc_price() {
    // BTC at $66,849.09218226 as Pyth publishes it, expo -8,
    // against a $1,000,000 reference: raw * 10^(18-8) / 1_000_000.
    let fp = normalize_price(6_684_909_218_226, -8, 1_000_000);
    assert_eq!(fp, 66_849_092_182_260_000);
    assert!(fp > 0 && (fp as u128) < PRICE_ONE);
}

#[test]
fn reference_scales_out_of_a_price_ratio() {
    // Two references give different fixed-points, but the ratio
    // between two prices is preserved.
    let a = normalize_price(2_000_000_000, -8, 1_000); // $20 / $1k
    let b = normalize_price(4_000_000_000, -8, 1_000); // $40 / $1k
    assert_eq!(b, 2 * a);
    let a2 = normalize_price(2_000_000_000, -8, 100_000); // $20 / $100k
    let b2 = normalize_price(4_000_000_000, -8, 100_000); // $40 / $100k
    assert_eq!(b2, 2 * a2);
}

#[test]
fn normalize_rounds_down() {
    // 1 * 10^18 / 3 = 333...333.33 -> rounded down.
    assert_eq!(normalize_price(1, 0, 3), 333_333_333_333_333_333);
}

#[test]
fn normalize_with_zero_shift() {
    // expo -18: no scaling at all, the raw value divided by the reference.
    assert_eq!(normalize_price(500, -18, 5), 100);
}

#[test]
fn normalize_with_positive_exponent() {
    // raw 3 at expo 2 is $300; against a $1000 reference that is 0.3.
    assert_eq!(normalize_price(3, 2, 1_000), 300_000_000_000_000_000);
}

#[test]
fn normalize_just_below_one() {
    // $999_999 / $1_000_000 at expo 0.
    assert_eq!(normalize_price(999_999, 0, 1_000_000), 999_999_000_000_000_000);
}

#[test]
fn normalized_ratio_preserved_across_references() {
    let r1 = normalize_price(3_000, -2, 100) as u128;
    let r2 = normalize_price(6_000, -2, 100) as u128;
    let s1 = normalize_price(3_000, -2, 10_000) as u128;
    let s2 = normalize_price(6_000, -2, 10_000) as u128;
    assert_eq!(r1 * 6_000, r2 * 3_000);
    assert_eq!(s1 * 6_000, s2 * 3_000);
}

#[test]
fn normalize_floor_brackets_the_scaled_price() {
    // 7 * 10^18 / 3: q * 3 <= 7e18 < (q + 1) * 3.
    let q = normalize_price(7, 0, 3) as u128;
    assert!(q * 3 <= 7_000_000_000_000_000_000);
    assert!(7_000_000_000_000_000_000 < (q + 1) * 3);
}
