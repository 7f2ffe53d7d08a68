use swap_aggregator::oracle::Oracle;

#[test]
fn curve_rejects_zero_new_bid_reserve() {
    assert_eq!(Oracle::curve(0, 5, 5), None);
}

#[test]
fn curve_rejects_zero_bid_reserve() {
    assert_eq!(Oracle::curve(5, 0, 5), None);
}

#[test]
fn curve_rejects_zero_ask_reserve() {
    assert_eq!(Oracle::curve(5, 5, 0), None);
}

#[test]
fn curve_computes_floored_quotient() {
    // 2 * 6 / 3 = 4 exactly
    assert_eq!(Oracle::curve(3, 2, 6), Some(4));
    // 7 * 3 / 2 = 10.5, floored
    assert_eq!(Oracle::curve(2, 7, 3), Some(10));
}

#[test]
fn curve_on_unchanged_bid_reserve_is_identity() {
    assert_eq!(Oracle::curve(1_000_000_000, 1_000_000_000, 123_456), Some(123_456));
    assert_eq!(Oracle::curve(7, 7, 1), Some(1));
}

#[test]
fn curve_rejects_zero_output_reserve() {
    // 1 * 5 / 10 rounds down to zero: the trade would drain the pool.
    assert_eq!(Oracle::curve(10, 1, 5), None);
}

#[test]
fn curve_rejects_quotient_beyond_64_bits() {
    // u64::MAX * u64::MAX / 1 cannot fit in 64 bits and must fail, not wrap.
    assert_eq!(Oracle::curve(1, u64::MAX, u64::MAX), None);
    // The exact 64-bit boundary is still accepted.
    assert_eq!(Oracle::curve(2, u64::MAX, 2), Some(u64::MAX));
}

#[test]
fn curve_preserves_product_up_to_rounding() {
    let new_bid: u64 = 1_001_000_000;
    let bid: u64 = 1_000_000_000;
    let ask: u64 = 1_000_000_000;
    let new_ask = Oracle::curve(new_bid, bid, ask).unwrap();
    let old_product = bid as u128 * ask as u128;
    let new_product = new_bid as u128 * new_ask as u128;
    assert!(new_product <= old_product);
    assert!(old_product < new_product + new_bid as u128);
}

#[test]
fn curve_in_fee_exempted_reference_quote() {
    // The worked reference route leg: a 1e9/1e9 pool quoted for 1e6 in.
    let quote = Oracle::curve_in_fee(1_001_000_000, 1_000_000_000, 1_000_000_000, true);
    assert_eq!(quote, Some((999_003_496, 996_504, 0)));
}

#[test]
fn curve_in_fee_charges_earning_when_not_exempted() {
    // Gross payout 999_001; fee floor(999_001 * 0.25%) = 2_497;
    // earning floor(999_001 * 0.05%) = 499.
    let quote = Oracle::curve_in_fee(1_001_000_000, 1_000_000_000, 1_000_000_000, false);
    assert_eq!(quote, Some((999_003_496, 996_005, 499)));
}

#[test]
fn curve_in_fee_net_payout_never_exceeds_gross() {
    let new_bid: u64 = 1_001_000_000;
    let bid: u64 = 1_000_000_000;
    let ask: u64 = 1_000_000_000;
    let without_fee = Oracle::curve(new_bid, bid, ask).unwrap();
    let gross = ask - without_fee;
    for exempted in [true, false] {
        let (_, paid, earning) = Oracle::curve_in_fee(new_bid, bid, ask, exempted).unwrap();
        assert!(paid <= gross);
        if exempted {
            assert_eq!(earning, 0);
        }
    }
}

#[test]
fn curve_in_fee_propagates_curve_failure() {
    assert_eq!(Oracle::curve_in_fee(0, 5, 5, true), None);
    assert_eq!(Oracle::curve_in_fee(10, 1, 5, false), None);
}

#[test]
fn curve_in_fee_rejects_negative_payout() {
    // Shrinking the bid reserve grows the ask reserve: the payout would be
    // negative, so the quote is rejected.
    assert_eq!(Oracle::curve_in_fee(1, 2, 6, true), None);
}

#[test]
fn curve_in_fee_small_payout_has_zero_fee() {
    // Gross payout too small for any fee at 0.25%: everything is paid out.
    // 10 * 10 / 11 = 9, gross payout 1, fee 0, earning 0.
    assert_eq!(Oracle::curve_in_fee(11, 10, 10, false), Some((9, 1, 0)));
}
