use recurring_payments::fees::split;

#[test]
fn split_matches_the_documented_example() {
    // 50 bps of 1_000_000 is 5000; 100 bps is 10000; the recipient takes
    // the rest.
    let (recipient_amount, gateway_fee, protocol_fee) = split(1_000_000, 50, 100);
    assert_eq!(gateway_fee, 5000);
    assert_eq!(protocol_fee, 10_000);
    assert_eq!(recipient_amount, 985_000);
}

#[test]
fn split_is_exact_for_sampled_amounts_and_rates() {
    let amounts = [0u64, 1, 2, 999, 10_000, 123_456_789, u64::MAX / 2, u64::MAX];
    let rates = [(0u16, 0u16), (1, 0), (0, 1), (50, 100), (9_999, 1), (10_000, 0), (5_000, 5_000)];
    for &amount in &amounts {
        for &(g, p) in &rates {
            let (recipient_amount, gateway_fee, protocol_fee) = split(amount, g, p);
            assert_eq!(
                recipient_amount as u128 + gateway_fee as u128 + protocol_fee as u128,
                amount as u128
            );
            assert_eq!(gateway_fee as u128, amount as u128 * g as u128 / 10_000);
            assert_eq!(protocol_fee as u128, amount as u128 * p as u128 / 10_000);
        }
    }
}

#[test]
fn split_handles_the_largest_amount_at_the_full_rate() {
    let (recipient_amount, gateway_fee, protocol_fee) = split(u64::MAX, 10_000, 0);
    assert_eq!(gateway_fee, u64::MAX);
    assert_eq!(protocol_fee, 0);
    assert_eq!(recipient_amount, 0);
}

#[test]
fn rounding_remainders_accrue_to_the_recipient() {
    // 50 bps of 999 is 4.995, rounded down to 4; 100 bps is 9.99, rounded
    // down to 9; both remainders stay with the recipient.
    let (recipient_amount, gateway_fee, protocol_fee) = split(999, 50, 100);
    assert_eq!(gateway_fee, 4);
    assert_eq!(protocol_fee, 9);
    assert_eq!(recipient_amount, 986);
}

#[test]
fn a_fee_too_small_to_round_up_is_zero() {
    let (recipient_amount, gateway_fee, protocol_fee) = split(100, 50, 99);
    assert_eq!(gateway_fee, 0);
    assert_eq!(protocol_fee, 0);
    assert_eq!(recipient_amount, 100);
}
