//! The invariant curve engine: pure, side-effect-free computation of swap and
//! withdrawal amounts over the constant-product relation
//! `reserve_x * reserve_y = k`, adjusted for the fee. All divisions truncate
//! toward zero, and every intermediate product is carried in 128 bits so that
//! two full 64-bit reserves can never overflow it.

use vstd::prelude::*;
use crate::errors::AmmError;
use crate::math::{lemma_u64_mul_fits_u128, lemma_mul_div_le_factor};

verus! {

/// Which side of the pair the caller deposits: `X` means asset X flows in
/// and asset Y flows out; `Y` the reverse.
#[derive(Clone, Copy, Debug, PartialEq, Eq, Structural)]
pub enum LiquidityPair {
    X,
    Y,
}

/// The two legs of one swap: what the caller must transfer in, and what the
/// pool transfers out.
#[derive(Clone, Copy, Debug, PartialEq, Eq, Structural)]
pub struct SwapResult {
    pub deposit: u64,
    pub withdraw: u64,
}

/// Proportional amounts of each reserve returned for a liquidity burn.
#[derive(Clone, Copy, Debug, PartialEq, Eq, Structural)]
pub struct XYAmounts {
    pub x: u64,
    pub y: u64,
}

/// The input amount after the fee is retained, truncating toward zero:
/// `amount_in * (10000 - fee_bps) / 10000`.
pub open spec fn spec_fee_adjusted(amount_in: u64, fee_bps: u16) -> int {
    (amount_in * (10000 - fee_bps)) / 10000
}

/// The swap output on the fee-adjusted input `af`, by the constant-product
/// relation with the quotient truncated toward zero:
/// `rout - (rin * rout) / (rin + af)`.
pub open spec fn spec_swap_out(rin: int, rout: int, af: int) -> int {
    rout - (rin * rout) / (rin + af)
}

/// The fixed-point share of the pool that `lp_amount` of `lp_supply`
/// liquidity units represents, truncating: `lp_amount * precision / lp_supply`.
pub open spec fn spec_share(lp_amount: u64, lp_supply: u64, precision: int) -> int {
    (lp_amount * precision) / (lp_supply as int)
}

/// One reserve's contribution for a fixed-point `share`, truncated
/// independently: `reserve * share / precision`.
pub open spec fn spec_prop_out(reserve: u64, share: int, precision: int) -> int {
    (reserve * share) / precision
}

/// One pool's live curve state: the two reserves, the outstanding
/// liquidity-share supply, the fee rate, and the optional decimal precision
/// it was initialized with.
#[derive(Clone, Copy, Debug, PartialEq, Eq, Structural)]
pub struct ConstantProduct {
    pub x: u64,
    pub y: u64,
    pub l: u64,
    pub fee_bps: u16,
    pub precision: Option<u8>,
}

impl ConstantProduct {
    /// A curve a swap may run against: the fee leaves room for a positive
    /// adjusted input, and both reserves are funded, so a price is defined.
    pub open spec fn wf(self) -> bool {
        &&& self.fee_bps < 10000
        &&& self.x > 0
        &&& self.y > 0
    }

    /// The reserve the caller deposits into.
    pub open spec fn reserve_in(self, pair: LiquidityPair) -> u64 {
        match pair {
            LiquidityPair::X => self.x,
            LiquidityPair::Y => self.y,
        }
    }

    /// The reserve the pool pays out of.
    pub open spec fn reserve_out(self, pair: LiquidityPair) -> u64 {
        match pair {
            LiquidityPair::X => self.y,
            LiquidityPair::Y => self.x,
        }
    }

    /// The output this curve yields for `amount_in` deposited on `pair`.
    pub open spec fn spec_swap_amount_out(self, pair: LiquidityPair, amount_in: u64) -> int {
        spec_swap_out(
            self.reserve_in(pair) as int,
            self.reserve_out(pair) as int,
            spec_fee_adjusted(amount_in, self.fee_bps),
        )
    }

    /// Builds the engine over a live reserve snapshot. Rejects a fee of
    /// 10000 basis points or more, then a pool with either reserve empty.
    pub fn init(x: u64, y: u64, l: u64, fee_bps: u16, precision: Option<u8>) -> (r: Result<
        ConstantProduct,
        AmmError,
    >)
        ensures
            fee_bps >= 10000 ==> r == Err::<ConstantProduct, AmmError>(AmmError::InvalidFeeRate),
            fee_bps < 10000 && (x == 0 || y == 0) ==> r == Err::<ConstantProduct, AmmError>(
                AmmError::ZeroReserve,
            ),
            r is Ok <==> (fee_bps < 10000 && x > 0 && y > 0),
            r matches Ok(c) ==> c.x == x && c.y == y && c.l == l && c.fee_bps == fee_bps
                && c.precision == precision && c.wf(),
    {
        if fee_bps >= 10000 {
            return Err(AmmError::InvalidFeeRate);
        }
        if x == 0 || y == 0 {
            return Err(AmmError::ZeroReserve);
        }
        Ok(ConstantProduct { x, y, l, fee_bps, precision })
    }

    /// One swap: `amount_in` of the `pair` side flows in, and the output the
    /// constant-product relation yields on the fee-adjusted input flows out,
    /// bounded below by the caller's slippage floor `min_out` and above by
    /// the output reserve. On success the reserves advance — the full input,
    /// fee included, stays in the pool — and on any failure the curve state
    /// is unchanged.
    pub fn swap(&mut self, pair: LiquidityPair, amount_in: u64, min_out: u64) -> (r: Result<
        SwapResult,
        AmmError,
    >)
        requires
            old(self).wf(),
            amount_in > 0,
        ensures
            ({
                let rin = old(self).reserve_in(pair) as int;
                let rout = old(self).reserve_out(pair) as int;
                let out = old(self).spec_swap_amount_out(pair, amount_in);
                &&& 0 <= out <= rout
                &&& (r == Err::<SwapResult, AmmError>(AmmError::SlippageExceeded) <==> out
                    < min_out)
                &&& (r == Err::<SwapResult, AmmError>(AmmError::InsufficientLiquidity) <==> (out
                    >= min_out && out >= rout))
                &&& (r == Err::<SwapResult, AmmError>(AmmError::ArithmeticOverflow) <==> (out
                    >= min_out && out < rout && rin + amount_in > u64::MAX))
                &&& (r is Ok <==> (out >= min_out && out < rout && rin + amount_in <= u64::MAX))
                &&& (r matches Ok(sr) ==> sr.deposit == amount_in && sr.withdraw == out)
                &&& (r is Ok ==> final(self).reserve_in(pair) == rin + amount_in)
                &&& (r is Ok ==> final(self).reserve_out(pair) == rout - out)
                &&& (r is Ok ==> final(self).l == old(self).l)
                &&& (r is Ok ==> final(self).fee_bps == old(self).fee_bps)
                &&& (r is Ok ==> final(self).precision == old(self).precision)
                &&& (r is Ok ==> final(self).wf())
                &&& (r is Err ==> *final(self) == *old(self))
            }),
    {
        let rin = match pair {
            LiquidityPair::X => self.x,
            LiquidityPair::Y => self.y,
        };
        let rout = match pair {
            LiquidityPair::X => self.y,
            LiquidityPair::Y => self.x,
        };
        let factor: u16 = 10000 - self.fee_bps;
        proof {
            lemma_u64_mul_fits_u128(amount_in as int, factor as int);
        }
        let num: u128 = (amount_in as u128) * (factor as u128);
        let af128: u128 = num / 10000;
        proof {
            lemma_mul_div_le_factor(factor as int, 10000, amount_in as int);
            assert(amount_in as int * factor as int == factor as int * amount_in as int)
                by (nonlinear_arith);
        }
        let af: u64 = af128 as u64;
        proof {
            lemma_u64_mul_fits_u128(rin as int, rout as int);
        }
        let prod: u128 = (rin as u128) * (rout as u128);
        let denom: u128 = rin as u128 + af as u128;
        let q: u128 = prod / denom;
        proof {
            lemma_mul_div_le_factor(rin as int, denom as int, rout as int);
        }
        let out128: u128 = rout as u128 - q;
        let out: u64 = out128 as u64;
        proof {
            assert(out == old(self).spec_swap_amount_out(pair, amount_in));
        }
        if out < min_out {
            return Err(AmmError::SlippageExceeded);
        }
        if out >= rout {
            return Err(AmmError::InsufficientLiquidity);
        }
        match rin.checked_add(amount_in) {
            None => Err(AmmError::ArithmeticOverflow),
            Some(new_rin) => {
                let new_rout = rout - out;
                match pair {
                    LiquidityPair::X => {
                        self.x = new_rin;
                        self.y = new_rout;
                    },
                    LiquidityPair::Y => {
                        self.y = new_rin;
                        self.x = new_rout;
                    },
                }
                Ok(SwapResult { deposit: amount_in, withdraw: out })
            },
        }
    }

    /// The proportional amounts of each reserve owed for burning `lp_amount`
    /// of `lp_supply` liquidity units, each leg truncated independently at
    /// the given fixed-point precision. Rejects a supply of zero and a burn
    /// larger than the supply; it never returns more than a reserve holds.
    pub fn xy_withdraw_amounts_from_l(
        x: u64,
        y: u64,
        lp_supply: u64,
        lp_amount: u64,
        precision: u32,
    ) -> (r: Result<XYAmounts, AmmError>)
        requires
            precision >= 1,
        ensures
            r is Err <==> (lp_supply == 0 || lp_amount > lp_supply),
            r is Err ==> r == Err::<XYAmounts, AmmError>(AmmError::CurveError),
            r matches Ok(am) ==> ({
                let share = spec_share(lp_amount, lp_supply, precision as int);
                &&& am.x == spec_prop_out(x, share, precision as int)
                &&& am.y == spec_prop_out(y, share, precision as int)
                &&& am.x <= x
                &&& am.y <= y
            }),
    {
        if lp_supply == 0 || lp_amount > lp_supply {
            return Err(AmmError::CurveError);
        }
        let p128: u128 = precision as u128;
        proof {
            lemma_u64_mul_fits_u128(lp_amount as int, precision as int);
        }
        let s: u128 = (lp_amount as u128) * p128 / (lp_supply as u128);
        proof {
            lemma_mul_div_le_factor(lp_amount as int, lp_supply as int, precision as int);
            lemma_u64_mul_fits_u128(x as int, s as int);
            lemma_u64_mul_fits_u128(y as int, s as int);
        }
        let xo: u128 = (x as u128) * s / p128;
        let yo: u128 = (y as u128) * s / p128;
        proof {
            lemma_mul_div_le_factor(s as int, precision as int, x as int);
            lemma_mul_div_le_factor(s as int, precision as int, y as int);
            assert(x as int * s as int == s as int * x as int) by (nonlinear_arith);
            assert(y as int * s as int == s as int * y as int) by (nonlinear_arith);
        }
        Ok(XYAmounts { x: xo as u64, y: yo as u64 })
    }
}

} // verus!
