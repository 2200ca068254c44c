use amm_core::curve::{ConstantProduct, LiquidityPair, SwapResult, XYAmounts};
use amm_core::errors::AmmError;

fn engine(x: u64, y: u64, l: u64, fee_bps: u16) -> ConstantProduct {
    ConstantProduct::init(x, y, l, fee_bps, Some(6)).unwrap()
}

#[test]
fn init_rejects_fee_at_or_above_denominator() {
    assert_eq!(
        ConstantProduct::init(1000, 1000, 1000, 10000, Some(6)),
        Err(AmmError::InvalidFeeRate)
    );
    assert_eq!(
        ConstantProduct::init(1000, 1000, 1000, u16::MAX, None),
        Err(AmmError::InvalidFeeRate)
    );
}

#[test]
fn init_rejects_empty_reserve() {
    assert_eq!(
        ConstantProduct::init(0, 1000, 1000, 30, Some(6)),
        Err(AmmError::ZeroReserve)
    );
    assert_eq!(
        ConstantProduct::init(1000, 0, 1000, 30, Some(6)),
        Err(AmmError::ZeroReserve)
    );
}

#[test]
fn init_keeps_the_snapshot() {
    let c = engine(1000, 2000, 500, 30);
    assert_eq!(c.x, 1000);
    assert_eq!(c.y, 2000);
    assert_eq!(c.l, 500);
    assert_eq!(c.fee_bps, 30);
}

// Reserves (1000, 1000), fee 30 bps, 100 units of X in: the fee-adjusted
// input is 100 * 9970 / 10000 = 99, and the output is
// 1000 - (1000 * 1000) / (1000 + 99) = 1000 - 909 = 91.
#[test]
fn swap_hundred_at_thirty_bps() {
    let mut c = engine(1000, 1000, 1000, 30);
    let r = c.swap(LiquidityPair::X, 100, 91);
    assert_eq!(
        r,
        Ok(SwapResult {
            deposit: 100,
            withdraw: 91
        })
    );
    assert_eq!(c.x, 1100);
    assert_eq!(c.y, 909);
}

#[test]
fn swap_slippage_floor_is_sharp() {
    let mut c = engine(1000, 1000, 1000, 30);
    let before = c;
    assert_eq!(
        c.swap(LiquidityPair::X, 100, 92),
        Err(AmmError::SlippageExceeded)
    );
    assert_eq!(c, before);
}

#[test]
fn swap_on_the_y_side_is_symmetric() {
    let mut c = engine(1000, 1000, 1000, 30);
    let r = c.swap(LiquidityPair::Y, 100, 0);
    assert_eq!(
        r,
        Ok(SwapResult {
            deposit: 100,
            withdraw: 91
        })
    );
    assert_eq!(c.y, 1100);
    assert_eq!(c.x, 909);
}

#[test]
fn swap_that_would_drain_the_pool_fails() {
    // The quotient truncates to zero, so the raw output equals the whole
    // output reserve.
    let mut c = engine(1, 1000, 1000, 0);
    let before = c;
    assert_eq!(
        c.swap(LiquidityPair::X, 1000, 0),
        Err(AmmError::InsufficientLiquidity)
    );
    assert_eq!(c, before);
}

#[test]
fn swap_overflowing_input_reserve_fails() {
    let mut c = engine(u64::MAX - 10, 1000, 1000, 0);
    let before = c;
    assert_eq!(
        c.swap(LiquidityPair::X, 100, 0),
        Err(AmmError::ArithmeticOverflow)
    );
    assert_eq!(c, before);
}

// The invariant product after the scenario swap: 1100 * 909 = 999900, above
// the old product 1000000 minus one divisor unit (1000 + 99 = 1099).
#[test]
fn swap_invariant_within_one_truncation_unit() {
    let mut c = engine(1000, 1000, 1000, 30);
    c.swap(LiquidityPair::X, 100, 0).unwrap();
    let new_k = c.x as u128 * c.y as u128;
    assert_eq!(new_k, 999900);
    assert!(new_k > 1_000_000u128 - 1099);
}

// With zero fee and an exact division the invariant is preserved exactly:
// 1000 - (1000 * 1000) / (1000 + 1000) = 500, and 2000 * 500 = 1000000.
#[test]
fn swap_exact_division_preserves_invariant() {
    let mut c = engine(1000, 1000, 1000, 0);
    let r = c.swap(LiquidityPair::X, 1000, 0);
    assert_eq!(
        r,
        Ok(SwapResult {
            deposit: 1000,
            withdraw: 500
        })
    );
    assert_eq!(c.x as u128 * c.y as u128, 1_000_000);
}

// Reserves (1000, 1000), supply 1000, burn 100 at precision 10^6: the share
// is 100 * 10^6 / 1000 = 100000 and each leg pays 1000 * 100000 / 10^6 = 100.
#[test]
fn withdraw_amounts_exact_proportion() {
    let r = ConstantProduct::xy_withdraw_amounts_from_l(1000, 1000, 1000, 100, 1_000_000);
    assert_eq!(r, Ok(XYAmounts { x: 100, y: 100 }));
}

#[test]
fn withdraw_amounts_truncate_against_the_caller() {
    // The exact Y leg is 333 * 100 / 1000 = 33.3; the computed leg is 33.
    let r = ConstantProduct::xy_withdraw_amounts_from_l(1000, 333, 1000, 100, 1_000_000);
    let am = r.unwrap();
    assert_eq!(am.x, 100);
    assert_eq!(am.y, 33);
    // Never rounded in the caller's favor on either leg.
    assert!(am.x as u128 * 1000 <= 1000u128 * 100);
    assert!(am.y as u128 * 1000 <= 333u128 * 100);
}

#[test]
fn withdraw_amounts_reject_empty_supply() {
    assert_eq!(
        ConstantProduct::xy_withdraw_amounts_from_l(1000, 1000, 0, 100, 1_000_000),
        Err(AmmError::CurveError)
    );
}

#[test]
fn withdraw_amounts_reject_burn_above_supply() {
    assert_eq!(
        ConstantProduct::xy_withdraw_amounts_from_l(1000, 1000, 100, 101, 1_000_000),
        Err(AmmError::CurveError)
    );
}

#[test]
fn withdraw_amounts_full_burn_returns_everything() {
    let r = ConstantProduct::xy_withdraw_amounts_from_l(1000, 333, 1000, 1000, 1_000_000);
    assert_eq!(r, Ok(XYAmounts { x: 1000, y: 333 }));
}
