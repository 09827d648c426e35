//! Tests of the constant-product arithmetic on concrete values.

use native_amm::curve::{
    delta_x_from_y_swap_amount, delta_x_from_y_swap_amount_with_fee, delta_y_from_x_swap_amount,
    delta_y_from_x_swap_amount_with_fee, k_from_xy, spot_price_from_pair,
    x2_from_y_swap_amount, xy_deposit_amounts_from_l, xy_withdraw_amounts_from_l, y2_from_x_swap_amount,
    CurveError,
};

#[test]
fn lib_swap() {
    let (amount_out, fee) = delta_y_from_x_swap_amount_with_fee(20, 30, 5, 0).unwrap();
    assert_eq!(amount_out, 6);
    assert_eq!(fee, 0);
    let (amount_out, fee) = delta_y_from_x_swap_amount_with_fee(25, 24, 5, 0).unwrap();
    assert_eq!(amount_out, 4);
    assert_eq!(fee, 0);
}

#[test]
fn swap_with_fee() {
    let (amount_out, fee) = delta_y_from_x_swap_amount_with_fee(20, 30, 5, 100).unwrap();
    assert_eq!(amount_out, 5);
    assert_eq!(fee, 1);
}

#[test]
fn invariant_is_exact_product() {
    assert_eq!(k_from_xy(20, 30).unwrap(), 600);
    assert_eq!(k_from_xy(1, 1).unwrap(), 1);
    assert_eq!(k_from_xy(u64::MAX, u64::MAX).unwrap(), (u64::MAX as u128) * (u64::MAX as u128));
}

#[test]
fn spot_price_is_scaled_ratio() {
    // floor(20 * 1_000_000_000 / 30)
    assert_eq!(spot_price_from_pair(20, 30, 1_000_000_000).unwrap(), 666_666_666);
    assert_eq!(spot_price_from_pair(30, 20, 100).unwrap(), 150);
    assert_eq!(spot_price_from_pair(7, 2, 1).unwrap(), 3);
}

#[test]
fn spot_price_overflow_is_checked() {
    // u64::MAX * 4 / 1 does not fit in 64 bits.
    assert_eq!(spot_price_from_pair(u64::MAX, 1, 4), Err(CurveError::Overflow));
}

#[test]
fn deposit_amounts_scale_both_reserves() {
    // Supply grows by half, so half of each reserve must come in.
    let (x, y) = xy_deposit_amounts_from_l(20, 30, 100_000, 50_000, 1_000_000_000).unwrap();
    assert_eq!((x, y), (10, 15));
}

#[test]
fn deposit_amounts_reject_empty_supply_and_zero_precision() {
    assert_eq!(
        xy_deposit_amounts_from_l(20, 30, 0, 50_000, 1_000_000_000),
        Err(CurveError::Overflow)
    );
    assert_eq!(xy_deposit_amounts_from_l(20, 30, 100, 50, 0), Err(CurveError::Overflow));
}

#[test]
fn withdraw_amounts_scale_both_reserves() {
    // Half of the supply burns, so half of each reserve pays out.
    let (x, y) = xy_withdraw_amounts_from_l(20, 30, 100_000, 50_000, 1_000_000_000).unwrap();
    assert_eq!((x, y), (10, 15));
}

#[test]
fn withdraw_rounding_favors_the_payout() {
    // The retained fraction 100_000/150_000 is rounded down, so the
    // payout of a reserve of 30 is 11, not 10.
    let (x, _y) = xy_withdraw_amounts_from_l(30, 30, 150_000, 50_000, 1_000_000_000).unwrap();
    assert_eq!(x, 11);
}

#[test]
fn withdraw_amounts_reject_burning_more_than_supply() {
    assert_eq!(
        xy_withdraw_amounts_from_l(20, 30, 100, 101, 1_000_000_000),
        Err(CurveError::Overflow)
    );
    assert_eq!(xy_withdraw_amounts_from_l(20, 30, 0, 0, 1_000_000_000), Err(CurveError::Overflow));
}

#[test]
fn new_reserves_follow_the_invariant() {
    // k = 600; swapping 5 of Y in leaves floor(600 / 35) = 17 of X.
    assert_eq!(x2_from_y_swap_amount(20, 30, 5).unwrap(), 17);
    assert_eq!(y2_from_x_swap_amount(20, 30, 5).unwrap(), 24);
    assert_eq!(delta_x_from_y_swap_amount(20, 30, 5).unwrap(), 3);
    assert_eq!(delta_y_from_x_swap_amount(20, 30, 5).unwrap(), 6);
}

#[test]
fn fee_split_adds_back_to_raw_output() {
    for fee in [0u16, 1, 30, 100, 2500, 9999] {
        let raw = delta_y_from_x_swap_amount(20, 30, 5).unwrap();
        let (amount_out, fee_amount) =
            delta_y_from_x_swap_amount_with_fee(20, 30, 5, fee).unwrap();
        assert_eq!(amount_out + fee_amount, raw);
    }
}

#[test]
fn swap_with_fee_mirrors_directions() {
    let (out_xy, fee_xy) = delta_y_from_x_swap_amount_with_fee(20, 30, 5, 100).unwrap();
    let (out_yx, fee_yx) = delta_x_from_y_swap_amount_with_fee(30, 20, 5, 100).unwrap();
    assert_eq!((out_xy, fee_xy), (out_yx, fee_yx));
}

#[test]
fn swap_conservation_on_concrete_values() {
    // Without a fee the product never grows and loses less than the new
    // incoming reserve; with a fee it never shrinks.
    let cases = [(20u64, 30u64, 5u64), (25, 24, 5), (1000, 7, 13), (3, 3, 1)];
    for (x, y, a) in cases {
        let k_old = (x as u128) * (y as u128);
        let (out, _) = delta_y_from_x_swap_amount_with_fee(x, y, a, 0).unwrap();
        let k_new = ((x + a) as u128) * ((y - out) as u128);
        assert!(k_new <= k_old);
        assert!(k_old - k_new < (x + a) as u128);
        let (out_fee, _) = delta_y_from_x_swap_amount_with_fee(x, y, a, 250).unwrap();
        let k_fee = ((x + a) as u128) * ((y - out_fee) as u128);
        assert!(k_fee >= k_old);
    }
}

#[test]
fn deposit_withdraw_round_trip_on_exact_divisions() {
    // With remainder-free scaling (supply 100, deposit 100, precision
    // 10) the round trip returns exactly the deposited amounts.
    let (dx, dy) = xy_deposit_amounts_from_l(40, 60, 100, 100, 10).unwrap();
    assert_eq!((dx, dy), (40, 60));
    let (wx, wy) = xy_withdraw_amounts_from_l(40 + dx, 60 + dy, 200, 100, 10).unwrap();
    assert_eq!((wx, wy), (dx, dy));
}
