use amm_core::errors::AmmError;
use amm_core::state::Config;
use amm_core::swap::Swap;
use amm_core::withdraw::Withdraw;

fn config() -> Config {
    Config::new(7, 1, 2, 3, 30)
}

fn swap_snapshot() -> Swap {
    Swap {
        config: config(),
        mint_x_decimals: 6,
        user_x_ata: 500,
        user_y_ata: 0,
        vault_x: 1000,
        vault_y: 1000,
        lp_supply: 1000,
    }
}

fn withdraw_snapshot() -> Withdraw {
    Withdraw {
        config: config(),
        mint_x_decimals: 6,
        mint_lp_supply: 1000,
        user_x: 0,
        user_y: 0,
        user_lp: 100,
        vault_x: 1000,
        vault_y: 1000,
    }
}

#[test]
fn config_new_starts_unlocked() {
    let c = config();
    assert_eq!(c.seed, 7);
    assert_eq!(c.fee_bps, 30);
    assert!(!c.locked);
}

// Reserves (1000, 1000), fee 30 bps, 100 units of X in: exactly the deposit
// and the 91-unit output move, the fee staying in the pool.
#[test]
fn swap_moves_exactly_both_legs() {
    let mut s = swap_snapshot();
    assert_eq!(s.swap(true, 100, 91), Ok(()));
    assert_eq!(s.user_x_ata, 400);
    assert_eq!(s.user_y_ata, 91);
    assert_eq!(s.vault_x, 1100);
    assert_eq!(s.vault_y, 909);
    assert_eq!(s.lp_supply, 1000);
    assert_eq!(s.config, config());
}

#[test]
fn swap_rejects_locked_pool() {
    let mut s = swap_snapshot();
    s.config.locked = true;
    let before = s;
    assert_eq!(s.swap(true, 100, 0), Err(AmmError::PoolLocked));
    assert_eq!(s, before);
}

#[test]
fn swap_rejects_zero_amount_before_the_engine() {
    let mut s = swap_snapshot();
    let before = s;
    assert_eq!(s.swap(true, 0, 0), Err(AmmError::InvalidAmount));
    assert_eq!(s, before);
}

#[test]
fn swap_rejects_short_caller_balance() {
    let mut s = swap_snapshot();
    let before = s;
    assert_eq!(s.swap(true, 501, 0), Err(AmmError::InsufficientBalance));
    assert_eq!(s, before);
}

#[test]
fn swap_rejects_illiquid_opposite_reserve() {
    let mut s = swap_snapshot();
    let before = s;
    assert_eq!(s.swap(true, 100, 1001), Err(AmmError::LiquidityBelowMinimum));
    assert_eq!(s, before);
}

#[test]
fn swap_rejects_empty_reserve() {
    let mut s = swap_snapshot();
    s.vault_y = 0;
    let before = s;
    assert_eq!(s.swap(true, 100, 0), Err(AmmError::ZeroReserve));
    assert_eq!(s, before);
}

#[test]
fn swap_rejects_drained_output_reserve() {
    // The quotient (1 * 400) / (1 + 500) truncates to zero, so the raw
    // output equals the whole output reserve.
    let mut s = swap_snapshot();
    s.vault_x = 1;
    s.vault_y = 400;
    s.config.fee_bps = 0;
    let before = s;
    assert_eq!(s.swap(true, 500, 0), Err(AmmError::InsufficientLiquidity));
    assert_eq!(s, before);
}

#[test]
fn swap_rejects_overflowing_vault() {
    let mut s = swap_snapshot();
    s.vault_x = u64::MAX - 10;
    s.config.fee_bps = 0;
    let before = s;
    assert_eq!(s.swap(true, 100, 0), Err(AmmError::ArithmeticOverflow));
    assert_eq!(s, before);
}

#[test]
fn swap_rejects_overflowing_receiving_account() {
    let mut s = swap_snapshot();
    s.user_y_ata = u64::MAX;
    let before = s;
    assert_eq!(s.swap(true, 100, 0), Err(AmmError::ArithmeticOverflow));
    assert_eq!(s, before);
}

#[test]
fn swap_failure_is_idempotent() {
    let mut s = swap_snapshot();
    let first = s.swap(true, 100, 92);
    let second = s.swap(true, 100, 92);
    assert_eq!(first, Err(AmmError::SlippageExceeded));
    assert_eq!(second, first);
    assert_eq!(s, swap_snapshot());
}

// Supply 1000, burn 100 at 6 decimals: share 100 * 10^6 / 1000 = 100000,
// each leg 1000 * 100000 / 10^6 = 100, an exact proportional return.
#[test]
fn withdraw_pays_exact_proportion() {
    let mut w = withdraw_snapshot();
    assert_eq!(w.withdraw(100, 100, 100), Ok(()));
    assert_eq!(w.user_x, 100);
    assert_eq!(w.user_y, 100);
    assert_eq!(w.user_lp, 0);
    assert_eq!(w.mint_lp_supply, 900);
    assert_eq!(w.vault_x, 900);
    assert_eq!(w.vault_y, 900);
    assert_eq!(w.config, config());
}

#[test]
fn withdraw_rejects_empty_pool() {
    let mut w = withdraw_snapshot();
    w.mint_lp_supply = 0;
    let before = w;
    assert_eq!(w.withdraw(100, 0, 0), Err(AmmError::NoLiquidityInPool));
    assert_eq!(w, before);
}

#[test]
fn withdraw_rejects_locked_pool() {
    let mut w = withdraw_snapshot();
    w.config.locked = true;
    let before = w;
    assert_eq!(w.withdraw(100, 0, 0), Err(AmmError::PoolLocked));
    assert_eq!(w, before);
}

#[test]
fn withdraw_rejects_zero_amount() {
    let mut w = withdraw_snapshot();
    let before = w;
    assert_eq!(w.withdraw(0, 0, 0), Err(AmmError::InvalidAmount));
    assert_eq!(w, before);
}

#[test]
fn withdraw_rejects_short_share_holding() {
    let mut w = withdraw_snapshot();
    let before = w;
    assert_eq!(w.withdraw(101, 0, 0), Err(AmmError::InsufficientBalance));
    assert_eq!(w, before);
}

#[test]
fn withdraw_rejects_burn_above_supply() {
    let mut w = withdraw_snapshot();
    w.user_lp = 2000;
    w.mint_lp_supply = 500;
    let before = w;
    assert_eq!(w.withdraw(501, 0, 0), Err(AmmError::InvalidAmount));
    assert_eq!(w, before);
}

#[test]
fn withdraw_rejects_unrepresentable_precision() {
    let mut w = withdraw_snapshot();
    w.mint_x_decimals = 10;
    let before = w;
    assert_eq!(w.withdraw(100, 0, 0), Err(AmmError::InvalidPrecision));
    assert_eq!(w, before);
}

#[test]
fn withdraw_rejects_slippage_on_either_leg() {
    let mut w = withdraw_snapshot();
    let before = w;
    assert_eq!(w.withdraw(100, 101, 0), Err(AmmError::SlippageExceeded));
    assert_eq!(w.withdraw(100, 0, 101), Err(AmmError::SlippageExceeded));
    assert_eq!(w, before);
}

#[test]
fn withdraw_rejects_overflowing_receiving_account() {
    let mut w = withdraw_snapshot();
    w.user_x = u64::MAX;
    let before = w;
    assert_eq!(w.withdraw(100, 0, 0), Err(AmmError::ArithmeticOverflow));
    assert_eq!(w, before);
}

#[test]
fn withdraw_failure_is_idempotent() {
    let mut w = withdraw_snapshot();
    w.mint_lp_supply = 0;
    let first = w.withdraw(100, 0, 0);
    let second = w.withdraw(100, 0, 0);
    assert_eq!(first, Err(AmmError::NoLiquidityInPool));
    assert_eq!(second, first);
}

#[test]
fn failure_idempotence_law_functions() {
    let mut s = swap_snapshot();
    let (r1, r2) = amm_core::laws::swap_failure_idempotent(&mut s, true, 100, 92);
    assert_eq!(r1, Err(AmmError::SlippageExceeded));
    assert_eq!(r2, r1);
    assert_eq!(s, swap_snapshot());
    let mut w = withdraw_snapshot();
    w.mint_lp_supply = 0;
    let before = w;
    let (r3, r4) = amm_core::laws::withdraw_failure_idempotent(&mut w, 100, 0, 0);
    assert_eq!(r3, Err(AmmError::NoLiquidityInPool));
    assert_eq!(r4, r3);
    assert_eq!(w, before);
}

#[test]
fn withdraw_zero_leg_is_not_an_error() {
    // A pool so lopsided that the Y leg truncates to zero: the burn still
    // settles, the zero-amount transfer being a no-op.
    let mut w = withdraw_snapshot();
    w.vault_y = 9;
    assert_eq!(w.withdraw(100, 0, 0), Ok(()));
    assert_eq!(w.user_x, 100);
    assert_eq!(w.user_y, 0);
    assert_eq!(w.vault_y, 9);
    assert_eq!(w.mint_lp_supply, 900);
}

#[test]
fn withdraw_proportionality_within_one_unit_per_leg() {
    // Lopsided reserves: each cross product differs by less than one unit
    // of the other reserve.
    let mut w = withdraw_snapshot();
    w.vault_x = 997;
    w.vault_y = 333;
    assert_eq!(w.withdraw(100, 0, 0), Ok(()));
    // x_out = 99, y_out = 33.
    assert_eq!(w.user_x, 99);
    assert_eq!(w.user_y, 33);
    let lhs = w.user_x as i128 * 333;
    let rhs = w.user_y as i128 * 997;
    assert!((lhs - rhs).abs() < 997 + 333);
}
