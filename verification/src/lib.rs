//! Exchange logic of a constant-product automated market maker: a pool of two
//! token reserves priced by the invariant `reserve_x * reserve_y = k`,
//! supporting swaps and proportional liquidity withdrawal under fee and
//! slippage constraints.
//!
//! The crate is layered as the system is: overflow-checked arithmetic
//! utilities at the bottom, the pure invariant curve engine above them, and
//! the pool controllers on top, which validate an operation against a fresh
//! reserve snapshot, invoke the engine, and apply the resulting balance
//! movements. Token custody and identity checks are external collaborators;
//! the controllers here operate on the plain balances read from them.

pub mod errors;
pub mod math;
pub mod curve;
pub mod state;
pub mod swap;
pub mod withdraw;
pub mod laws;
