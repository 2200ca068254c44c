//! The swap entry point of the pool controller: validates one swap against a
//! fresh snapshot of the caller's and the pool's balances, invokes the curve
//! engine, and settles both transfer legs. Either every step succeeds and
//! both legs settle, or the snapshot is returned bit-for-bit unchanged.

use vstd::prelude::*;
use crate::curve::{ConstantProduct, LiquidityPair, spec_fee_adjusted, spec_swap_out};
use crate::errors::AmmError;
use crate::state::Config;

verus! {

/// One swap operation's view of the world: the pool record plus the live
/// balances read fresh from custody — the caller's two token accounts, the
/// two vaults, and the outstanding liquidity-share supply.
#[derive(Clone, Copy, Debug, PartialEq, Eq, Structural)]
pub struct Swap {
    pub config: Config,
    pub mint_x_decimals: u8,
    pub user_x_ata: u64,
    pub user_y_ata: u64,
    pub vault_x: u64,
    pub vault_y: u64,
    pub lp_supply: u64,
}

impl Swap {
    /// The operation is meaningful only over a well-formed pool record.
    pub open spec fn wf(self) -> bool {
        self.config.wf()
    }

    /// The vault balance on the X side when `x_side`, else on the Y side.
    pub open spec fn vault_of(self, x_side: bool) -> u64 {
        if x_side {
            self.vault_x
        } else {
            self.vault_y
        }
    }

    /// The caller's balance on the X side when `x_side`, else on the Y side.
    pub open spec fn user_of(self, x_side: bool) -> u64 {
        if x_side {
            self.user_x_ata
        } else {
            self.user_y_ata
        }
    }

    /// The output the curve yields for this snapshot: `is_x` names the
    /// deposited side.
    pub open spec fn spec_amount_out(self, is_x: bool, amount: u64) -> int {
        spec_swap_out(
            self.vault_of(is_x) as int,
            self.vault_of(!is_x) as int,
            spec_fee_adjusted(amount, self.config.fee_bps),
        )
    }

    /// The first check a swap of `amount` on the `is_x` side with floor
    /// `min` fails on, or `None` when every check passes. The checks run in
    /// the order the controller performs them: lock, zero amount, caller
    /// balance, pre-trade liquidity floor, then the engine (empty reserve,
    /// slippage, pool drain, reserve overflow), then settlement feasibility.
    pub open spec fn swap_error(self, is_x: bool, amount: u64, min: u64) -> Option<AmmError> {
        if self.config.locked {
            Some(AmmError::PoolLocked)
        } else if amount == 0 {
            Some(AmmError::InvalidAmount)
        } else if self.user_of(is_x) < amount {
            Some(AmmError::InsufficientBalance)
        } else if self.vault_of(!is_x) < min {
            Some(AmmError::LiquidityBelowMinimum)
        } else if self.vault_x == 0 || self.vault_y == 0 {
            Some(AmmError::ZeroReserve)
        } else {
            let out = self.spec_amount_out(is_x, amount);
            if out < min {
                Some(AmmError::SlippageExceeded)
            } else if out >= self.vault_of(!is_x) {
                Some(AmmError::InsufficientLiquidity)
            } else if self.vault_of(is_x) + amount > u64::MAX {
                Some(AmmError::ArithmeticOverflow)
            } else if self.user_of(!is_x) + out > u64::MAX {
                Some(AmmError::ArithmeticOverflow)
            } else {
                None
            }
        }
    }

    /// One swap: deposit `amount` of the `is_x` side, receive the curve's
    /// output of the other side, rejecting anything below the caller's
    /// floor `min`. On success exactly the two legs move — the full input,
    /// fee included, enters the vault — and on any failure the snapshot is
    /// unchanged, so a repeated call fails the same way.
    pub fn swap(&mut self, is_x: bool, amount: u64, min: u64) -> (r: Result<(), AmmError>)
        requires
            old(self).wf(),
        ensures
            r is Err <==> old(self).swap_error(is_x, amount, min) is Some,
            r matches Err(e) ==> old(self).swap_error(is_x, amount, min) == Some(e),
            r is Err ==> *final(self) == *old(self),
            r is Ok ==> ({
                let out = old(self).spec_amount_out(is_x, amount);
                &&& final(self).user_of(is_x) == old(self).user_of(is_x) - amount
                &&& final(self).user_of(!is_x) == old(self).user_of(!is_x) + out
                &&& final(self).vault_of(is_x) == old(self).vault_of(is_x) + amount
                &&& final(self).vault_of(!is_x) == old(self).vault_of(!is_x) - out
                &&& final(self).config == old(self).config
                &&& final(self).lp_supply == old(self).lp_supply
                &&& final(self).mint_x_decimals == old(self).mint_x_decimals
            }),
    {
        if self.config.locked {
            return Err(AmmError::PoolLocked);
        }
        if amount == 0 {
            return Err(AmmError::InvalidAmount);
        }
        let user_token_balance = if is_x {
            self.user_x_ata
        } else {
            self.user_y_ata
        };
        if user_token_balance < amount {
            return Err(AmmError::InsufficientBalance);
        }
        let vault_meets_min = if is_x {
            self.vault_y >= min
        } else {
            self.vault_x >= min
        };
        if !vault_meets_min {
            return Err(AmmError::LiquidityBelowMinimum);
        }
        let mut curve = match ConstantProduct::init(
            self.vault_x,
            self.vault_y,
            self.lp_supply,
            self.config.fee_bps,
            Some(self.mint_x_decimals),
        ) {
            Ok(c) => c,
            Err(e) => {
                return Err(e);
            },
        };
        let swap_pair = if is_x {
            LiquidityPair::X
        } else {
            LiquidityPair::Y
        };
        let swap_result = match curve.swap(swap_pair, amount, min) {
            Ok(sr) => sr,
            Err(e) => {
                return Err(e);
            },
        };
        let receiving = if is_x {
            self.user_y_ata
        } else {
            self.user_x_ata
        };
        if receiving > u64::MAX - swap_result.withdraw {
            return Err(AmmError::ArithmeticOverflow);
        }
        match self.deposit_tokens(is_x, swap_result.deposit) {
            Ok(_) => (),
            Err(e) => {
                return Err(e);
            },
        }
        match self.withdraw_tokens(!is_x, swap_result.withdraw) {
            Ok(_) => (),
            Err(e) => {
                return Err(e);
            },
        }
        Ok(())
    }

    /// The deposit leg: moves `amount` of the `is_x` side from the caller's
    /// account into the vault. Custody guarantees a transfer is atomic;
    /// here both balances are plain values, so the move is two exact
    /// updates.
    pub fn deposit_tokens(&mut self, is_x: bool, amount: u64) -> (r: Result<(), AmmError>)
        requires
            old(self).user_of(is_x) >= amount,
            old(self).vault_of(is_x) + amount <= u64::MAX,
        ensures
            r is Ok,
            final(self).user_of(is_x) == old(self).user_of(is_x) - amount,
            final(self).vault_of(is_x) == old(self).vault_of(is_x) + amount,
            final(self).user_of(!is_x) == old(self).user_of(!is_x),
            final(self).vault_of(!is_x) == old(self).vault_of(!is_x),
            final(self).config == old(self).config,
            final(self).lp_supply == old(self).lp_supply,
            final(self).mint_x_decimals == old(self).mint_x_decimals,
    {
        if is_x {
            self.user_x_ata = self.user_x_ata - amount;
            self.vault_x = self.vault_x + amount;
        } else {
            self.user_y_ata = self.user_y_ata - amount;
            self.vault_y = self.vault_y + amount;
        }
        Ok(())
    }

    /// The payout leg: moves `amount` of the `is_x` side from the vault to
    /// the caller's account, under the pool authority's signature.
    pub fn withdraw_tokens(&mut self, is_x: bool, amount: u64) -> (r: Result<(), AmmError>)
        requires
            old(self).vault_of(is_x) >= amount,
            old(self).user_of(is_x) + amount <= u64::MAX,
        ensures
            r is Ok,
            final(self).vault_of(is_x) == old(self).vault_of(is_x) - amount,
            final(self).user_of(is_x) == old(self).user_of(is_x) + amount,
            final(self).user_of(!is_x) == old(self).user_of(!is_x),
            final(self).vault_of(!is_x) == old(self).vault_of(!is_x),
            final(self).config == old(self).config,
            final(self).lp_supply == old(self).lp_supply,
            final(self).mint_x_decimals == old(self).mint_x_decimals,
    {
        if is_x {
            self.vault_x = self.vault_x - amount;
            self.user_x_ata = self.user_x_ata + amount;
        } else {
            self.vault_y = self.vault_y - amount;
            self.user_y_ata = self.user_y_ata + amount;
        }
        Ok(())
    }
}

} // verus!
