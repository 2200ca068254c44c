//! Error taxonomy of the pool: precondition errors (detected before any curve
//! computation), computation errors (malformed configuration or arithmetic
//! boundary), and economic errors (expected, caller adjusts and resubmits).
//! Every error aborts the whole operation; none is swallowed.

use vstd::prelude::*;

verus! {

/// One specific failure of a pool operation. The caller always receives a
/// specific kind, never a generic failure, so that a retry layer can
/// distinguish "adjust parameters and resubmit" from "configuration fault".
#[derive(Clone, Copy, Debug, PartialEq, Eq, Structural)]
pub enum AmmError {
    /// The pool's emergency-halt flag is set; all operations are rejected.
    PoolLocked,
    /// A zero amount, or a liquidity burn larger than the outstanding supply.
    InvalidAmount,
    /// The caller's balance of the asset it must provide is too small.
    InsufficientBalance,
    /// The opposite-side reserve is below the caller-supplied floor: a
    /// pre-trade guard against trading into an already-illiquid pool.
    LiquidityBelowMinimum,
    /// Withdrawal from a pool that has never received a deposit.
    NoLiquidityInPool,
    /// Swap against a pool with an empty reserve: no price is defined.
    ZeroReserve,
    /// A fee rate of 10000 basis points or more.
    InvalidFeeRate,
    /// An intermediate value does not fit its machine width; never silently
    /// wrapped.
    ArithmeticOverflow,
    /// The curve engine rejected a withdrawal computation.
    CurveError,
    /// The decimal precision `10^decimals` does not fit 32 bits.
    InvalidPrecision,
    /// A computed output is below the caller's slippage floor.
    SlippageExceeded,
    /// The swap would drain the whole output reserve.
    InsufficientLiquidity,
}

} // verus!
