//! The withdraw entry point of the pool controller: validates a liquidity
//! burn against a fresh snapshot, computes the proportional amounts through
//! the curve engine, burns the shares, and pays out both reserve legs.
//! Either everything settles, or the snapshot is bit-for-bit unchanged.

use vstd::prelude::*;
use crate::curve::{ConstantProduct, spec_prop_out, spec_share};
use crate::errors::AmmError;
use crate::math::{pow10, spec_pow10};
use crate::state::Config;

verus! {

/// One withdrawal's view of the world: the pool record plus the live
/// balances read fresh from custody — the two vaults, the caller's three
/// token accounts, and the outstanding liquidity-share supply.
#[derive(Clone, Copy, Debug, PartialEq, Eq, Structural)]
pub struct Withdraw {
    pub config: Config,
    pub mint_x_decimals: u8,
    pub mint_lp_supply: u64,
    pub user_x: u64,
    pub user_y: u64,
    pub user_lp: u64,
    pub vault_x: u64,
    pub vault_y: u64,
}

impl Withdraw {
    /// The fixed-point precision a withdrawal runs at: one unit of asset X,
    /// `10^decimals`.
    pub open spec fn spec_precision(self) -> int {
        spec_pow10(self.mint_x_decimals as nat) as int
    }

    /// The X-leg payout for burning `amount` liquidity units.
    pub open spec fn spec_x_out(self, amount: u64) -> int {
        spec_prop_out(
            self.vault_x,
            spec_share(amount, self.mint_lp_supply, self.spec_precision()),
            self.spec_precision(),
        )
    }

    /// The Y-leg payout for burning `amount` liquidity units.
    pub open spec fn spec_y_out(self, amount: u64) -> int {
        spec_prop_out(
            self.vault_y,
            spec_share(amount, self.mint_lp_supply, self.spec_precision()),
            self.spec_precision(),
        )
    }

    /// The first check a withdrawal of `amount` with floors `min_x`,
    /// `min_y` fails on, or `None` when every check passes, in the order
    /// the controller performs them: lock, zero amount, empty pool, caller
    /// holding, burn above supply, precision, slippage on either leg, then
    /// settlement feasibility.
    pub open spec fn withdraw_error(self, amount: u64, min_x: u64, min_y: u64) -> Option<
        AmmError,
    > {
        if self.config.locked {
            Some(AmmError::PoolLocked)
        } else if amount == 0 {
            Some(AmmError::InvalidAmount)
        } else if self.mint_lp_supply == 0 {
            Some(AmmError::NoLiquidityInPool)
        } else if self.user_lp < amount {
            Some(AmmError::InsufficientBalance)
        } else if amount > self.mint_lp_supply {
            Some(AmmError::InvalidAmount)
        } else if self.mint_x_decimals > 9 {
            Some(AmmError::InvalidPrecision)
        } else if self.spec_x_out(amount) < min_x || self.spec_y_out(amount) < min_y {
            Some(AmmError::SlippageExceeded)
        } else if self.user_x + self.spec_x_out(amount) > u64::MAX || self.user_y
            + self.spec_y_out(amount) > u64::MAX {
            Some(AmmError::ArithmeticOverflow)
        } else {
            None
        }
    }

    /// One proportional withdrawal: burn `amount` liquidity-share units and
    /// receive each reserve's share of them, each leg truncated in the
    /// pool's favor and bounded below by its floor. The burn precedes the
    /// payouts, and on any failure the snapshot is unchanged, so a repeated
    /// call fails the same way.
    pub fn withdraw(&mut self, amount: u64, min_x: u64, min_y: u64) -> (r: Result<(), AmmError>)
        ensures
            r is Err <==> old(self).withdraw_error(amount, min_x, min_y) is Some,
            r matches Err(e) ==> old(self).withdraw_error(amount, min_x, min_y) == Some(e),
            r is Err ==> *final(self) == *old(self),
            r is Ok ==> ({
                let xo = old(self).spec_x_out(amount);
                let yo = old(self).spec_y_out(amount);
                &&& final(self).user_lp == old(self).user_lp - amount
                &&& final(self).mint_lp_supply == old(self).mint_lp_supply - amount
                &&& final(self).vault_x == old(self).vault_x - xo
                &&& final(self).vault_y == old(self).vault_y - yo
                &&& final(self).user_x == old(self).user_x + xo
                &&& final(self).user_y == old(self).user_y + yo
                &&& final(self).config == old(self).config
                &&& final(self).mint_x_decimals == old(self).mint_x_decimals
            }),
    {
        if self.config.locked {
            return Err(AmmError::PoolLocked);
        }
        if amount == 0 {
            return Err(AmmError::InvalidAmount);
        }
        if self.mint_lp_supply == 0 {
            return Err(AmmError::NoLiquidityInPool);
        }
        if self.user_lp < amount {
            return Err(AmmError::InsufficientBalance);
        }
        if amount > self.mint_lp_supply {
            return Err(AmmError::InvalidAmount);
        }
        let dec_precision = match pow10(self.mint_x_decimals as u32) {
            Some(p) => p,
            None => {
                return Err(AmmError::InvalidPrecision);
            },
        };
        let withdraw_amounts = match ConstantProduct::xy_withdraw_amounts_from_l(
            self.vault_x,
            self.vault_y,
            self.mint_lp_supply,
            amount,
            dec_precision,
        ) {
            Ok(am) => am,
            Err(_) => {
                return Err(AmmError::CurveError);
            },
        };
        let x_amount_out = withdraw_amounts.x;
        let y_amount_out = withdraw_amounts.y;
        if x_amount_out < min_x {
            return Err(AmmError::SlippageExceeded);
        }
        if y_amount_out < min_y {
            return Err(AmmError::SlippageExceeded);
        }
        if x_amount_out > u64::MAX - self.user_x {
            return Err(AmmError::ArithmeticOverflow);
        }
        if y_amount_out > u64::MAX - self.user_y {
            return Err(AmmError::ArithmeticOverflow);
        }
        match self.burn_lp_tokens(amount) {
            Ok(_) => (),
            Err(e) => {
                return Err(e);
            },
        }
        match self.withdraw_tokens(true, x_amount_out) {
            Ok(_) => (),
            Err(e) => {
                return Err(e);
            },
        }
        match self.withdraw_tokens(false, y_amount_out) {
            Ok(_) => (),
            Err(e) => {
                return Err(e);
            },
        }
        Ok(())
    }

    /// One payout leg: moves `amount` of asset X (when `is_x`) or asset Y
    /// from the vault to the caller's account, under the pool authority's
    /// signature. A zero-amount leg is a no-op move, not an error.
    pub fn withdraw_tokens(&mut self, is_x: bool, amount: u64) -> (r: Result<(), AmmError>)
        requires
            is_x ==> old(self).vault_x >= amount && old(self).user_x + amount <= u64::MAX,
            !is_x ==> old(self).vault_y >= amount && old(self).user_y + amount <= u64::MAX,
        ensures
            r is Ok,
            is_x ==> final(self).vault_x == old(self).vault_x - amount && final(self).user_x
                == old(self).user_x + amount && final(self).vault_y == old(self).vault_y
                && final(self).user_y == old(self).user_y,
            !is_x ==> final(self).vault_y == old(self).vault_y - amount && final(self).user_y
                == old(self).user_y + amount && final(self).vault_x == old(self).vault_x
                && final(self).user_x == old(self).user_x,
            final(self).config == old(self).config,
            final(self).mint_lp_supply == old(self).mint_lp_supply,
            final(self).user_lp == old(self).user_lp,
            final(self).mint_x_decimals == old(self).mint_x_decimals,
    {
        if is_x {
            self.vault_x = self.vault_x - amount;
            self.user_x = self.user_x + amount;
        } else {
            self.vault_y = self.vault_y - amount;
            self.user_y = self.user_y + amount;
        }
        Ok(())
    }

    /// Burns `amount` liquidity-share units from the caller: the supply and
    /// the caller's holding both shrink by exactly the burn. Irreversible,
    /// so the controller performs it only after every check has passed.
    pub fn burn_lp_tokens(&mut self, amount: u64) -> (r: Result<(), AmmError>)
        requires
            old(self).user_lp >= amount,
            old(self).mint_lp_supply >= amount,
        ensures
            r is Ok,
            final(self).user_lp == old(self).user_lp - amount,
            final(self).mint_lp_supply == old(self).mint_lp_supply - amount,
            final(self).vault_x == old(self).vault_x,
            final(self).vault_y == old(self).vault_y,
            final(self).user_x == old(self).user_x,
            final(self).user_y == old(self).user_y,
            final(self).config == old(self).config,
            final(self).mint_x_decimals == old(self).mint_x_decimals,
    {
        self.user_lp = self.user_lp - amount;
        self.mint_lp_supply = self.mint_lp_supply - amount;
        Ok(())
    }
}

} // verus!
