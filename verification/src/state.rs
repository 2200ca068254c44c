//! The persisted configuration of one pool instance: the identifiers of its
//! asset types, its fee rate, and the emergency-halt flag. Created once, at
//! pool initialization, and immutable afterwards except for the lock flag,
//! which only a privileged authority action (out of scope here) toggles.

use vstd::prelude::*;

verus! {

/// The pool state record. `seed` distinguishes pools over identical mint
/// pairs; `mint_x`, `mint_y` and `mint_lp` identify the two reserve asset
/// types and the liquidity-share asset type.
#[derive(Clone, Copy, Debug, PartialEq, Eq, Structural)]
pub struct Config {
    pub seed: u64,
    pub mint_x: u64,
    pub mint_y: u64,
    pub mint_lp: u64,
    pub fee_bps: u16,
    pub locked: bool,
}

impl Config {
    /// The record's invariant: the two reserve assets differ, and the fee
    /// rate lies in `[0, 10000)` basis points.
    pub open spec fn wf(self) -> bool {
        &&& self.mint_x != self.mint_y
        &&& self.fee_bps < 10000
    }

    /// Builds the record for a new, unlocked pool.
    pub fn new(seed: u64, mint_x: u64, mint_y: u64, mint_lp: u64, fee_bps: u16) -> (c: Config)
        requires
            mint_x != mint_y,
            fee_bps < 10000,
        ensures
            c.seed == seed,
            c.mint_x == mint_x,
            c.mint_y == mint_y,
            c.mint_lp == mint_lp,
            c.fee_bps == fee_bps,
            !c.locked,
            c.wf(),
    {
        Config { seed, mint_x, mint_y, mint_lp, fee_bps, locked: false }
    }
}

} // verus!
