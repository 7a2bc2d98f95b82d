//! The pricing engine operations on concrete values: exact curve results,
//! the liquidity and overflow boundaries, monotonicity samples, and the
//! pool-favoring round trip.

use dex_pricing::{compute_input_price, compute_output_price, Error};

const RESERVE: u128 = 1_000_000_000_000;

#[test]
fn input_price_exact_scenario() {
    // 0.3%-fee constant-product curve: paying 1,000,000 into deep equal
    // reserves yields 996,999.
    assert_eq!(compute_input_price(1_000_000, RESERVE, RESERVE), Ok(996_999));
}

#[test]
fn output_price_exact_scenario() {
    // The inverse trade: receiving exactly 1,000,000 costs 1,003,011.
    assert_eq!(compute_output_price(1_000_000, RESERVE, RESERVE), Ok(1_003_011));
}

#[test]
fn output_price_liquidity_boundary() {
    // amount_out >= output_reserve always fails, amount_out just below
    // succeeds with the exact up-rounded charge.
    assert_eq!(
        compute_output_price(1_000, 1_000, 1_000),
        Err(Error::NotEnoughLiquidity)
    );
    assert_eq!(
        compute_output_price(1_001, 1_000, 1_000),
        Err(Error::NotEnoughLiquidity)
    );
    assert_eq!(
        compute_output_price(u128::MAX, 1_000, 1_000),
        Err(Error::NotEnoughLiquidity)
    );
    assert_eq!(compute_output_price(999, 1_000, 1_000), Ok(1_002_007));
}

#[test]
fn input_price_zero_and_degenerate_pools() {
    // Paying nothing yields nothing.
    assert_eq!(compute_input_price(0, 10, 10), Ok(0));
    // An empty output reserve quotes zero: a no-liquidity condition.
    assert_eq!(compute_input_price(5, 10, 0), Ok(0));
    // A pool empty on both sides quotes zero as well.
    assert_eq!(compute_input_price(0, 0, 7), Ok(0));
    // An empty input reserve lets any payment sweep the whole output side.
    assert_eq!(compute_input_price(5, 0, 10), Ok(10));
}

#[test]
fn overflow_boundary() {
    // Maximal magnitudes overflow the intermediate products...
    assert_eq!(
        compute_input_price(u128::MAX, u128::MAX, u128::MAX),
        Err(Error::Overflow)
    );
    assert_eq!(
        compute_input_price(1, u128::MAX, u128::MAX),
        Err(Error::Overflow)
    );
    assert_eq!(
        compute_output_price(1, u128::MAX, u128::MAX),
        Err(Error::Overflow)
    );
    // ...while moderate magnitudes do not.
    assert!(compute_input_price(1_000_000, RESERVE, RESERVE).is_ok());
    assert!(compute_output_price(1_000_000, RESERVE, RESERVE).is_ok());
}

#[test]
fn input_price_self_limiting_sample() {
    // Even an enormous payment cannot drain the output reserve.
    let payout = compute_input_price(100_000_000_000_000_000_000, RESERVE, RESERVE).unwrap();
    assert!(payout < RESERVE);
}

#[test]
fn input_price_monotonic_samples() {
    let amounts = [0u128, 1, 9, 10, 999, 1_000, 123_456, 1_000_000, 500_000_000];
    let mut last = 0u128;
    for &a in amounts.iter() {
        let price = compute_input_price(a, RESERVE, RESERVE).unwrap();
        assert!(price >= last);
        last = price;
    }
}

#[test]
fn output_price_monotonic_samples() {
    let amounts = [0u128, 1, 9, 10, 999, 1_000, 123_456, 1_000_000, 500_000_000];
    let mut last = 0u128;
    for &a in amounts.iter() {
        let price = compute_output_price(a, RESERVE, RESERVE).unwrap();
        assert!(price >= last);
        last = price;
    }
}

#[test]
fn round_trip_never_discounts_where_loss_is_covered() {
    // Feeding the fixed-input payout back as the desired output never asks
    // for less than the original payment, wherever the value truncated from
    // the payout stays within the return quote's one-unit up-rounding.
    for &a in [1u128, 997, 123_456, 1_000_000, 99_999_999].iter() {
        let payout = compute_input_price(a, RESERVE, RESERVE).unwrap();
        let charge = compute_output_price(payout, RESERVE, RESERVE).unwrap();
        assert!(charge >= a);
    }
}

#[test]
fn round_trip_boundary_exact_values() {
    // Outside the covered region the trader can come out ahead by the
    // truncated sliver. Deep pool: paying 1,000 buys 996, and buying 996
    // outright costs only 999 -- the payout quote truncated away almost a
    // full unit of output, worth slightly more than the up-rounded unit of
    // input. Tiny pool: the effect is extreme.
    assert_eq!(compute_input_price(1_000, RESERVE, RESERVE), Ok(996));
    assert_eq!(compute_output_price(996, RESERVE, RESERVE), Ok(999));
    assert_eq!(compute_input_price(1_000, 1, 10), Ok(9));
    assert_eq!(compute_output_price(9, 1, 10), Ok(10));
}
