//! The laws of the pool, proved once and for all inputs: the constant
//! product never falls by as much as one truncation unit under a swap (and
//! never falls at all when the division is exact), a withdrawal pays the two
//! legs in the reserves' proportion up to one truncation unit per leg, and
//! every rounding choice truncates against the caller, never against the
//! pool. Failure is idempotent: a failing operation leaves its snapshot
//! unchanged and fails identically when repeated.

use vstd::prelude::*;
use vstd::arithmetic::div_mod::{lemma_fundamental_div_mod, lemma_mod_division_less_than_divisor};
use vstd::arithmetic::mul::lemma_mul_inequality;
use crate::curve::{spec_fee_adjusted, spec_prop_out, spec_share, spec_swap_out};
use crate::errors::AmmError;
use crate::math::{lemma_div_mul_le, lemma_mul_div_le_factor};
use crate::swap::Swap;
use crate::withdraw::Withdraw;

verus! {

/// The fee-adjusted input lies between zero and the raw input: the fee
/// truncation keeps value in the pool, never hands any out.
pub proof fn lemma_fee_adjusted_bounds(amount_in: u64, fee_bps: u16)
    requires
        fee_bps < 10000,
    ensures
        0 <= spec_fee_adjusted(amount_in, fee_bps) <= amount_in,
        10000 * spec_fee_adjusted(amount_in, fee_bps) <= amount_in * (10000 - fee_bps),
{
    let factor = (10000 - fee_bps) as int;
    lemma_mul_div_le_factor(factor, 10000, amount_in as int);
    assert(amount_in as int * factor == factor * amount_in as int) by (nonlinear_arith);
    lemma_div_mul_le(amount_in as int * factor, 10000);
}

/// Law: a swap never decreases the invariant `k = rin * rout` by as much as
/// one truncation unit — the new product stays above the old one minus the
/// divisor `rin + af` — and whenever the constant-product division is exact
/// the product does not decrease at all, the retained fee only adding to it.
pub proof fn lemma_swap_invariant_preserved(rin: u64, rout: u64, amount_in: u64, fee_bps: u16)
    requires
        rin > 0,
        rout > 0,
        fee_bps < 10000,
    ensures
        ({
            let af = spec_fee_adjusted(amount_in, fee_bps);
            let out = spec_swap_out(rin as int, rout as int, af);
            &&& (rin + amount_in) * (rout - out) > rin * rout - (rin + af)
            &&& (rin * rout) % (rin + af) == 0 ==> (rin + amount_in) * (rout - out) >= rin
                * rout
        }),
{
    let af = spec_fee_adjusted(amount_in, fee_bps);
    lemma_fee_adjusted_bounds(amount_in, fee_bps);
    let prod = rin as int * rout as int;
    let denom = rin + af;
    let q = prod / denom;
    let rem = prod % denom;
    assert(rin as int * rout as int >= 0) by (nonlinear_arith)
        requires rin >= 0 && rout >= 0;
    lemma_fundamental_div_mod(prod, denom);
    lemma_mod_division_less_than_divisor(prod, denom);
    lemma_mul_div_le_factor(rin as int, denom, rout as int);
    assert(rout - spec_swap_out(rin as int, rout as int, af) == q);
    lemma_mul_inequality(denom, rin + amount_in, q);
    assert(denom * q == prod - rem);
}

/// Law: the two legs of a withdrawal stand in the reserves' own proportion
/// up to one truncation unit per leg. At precision `p`, the cross products
/// `x_out * y` and `y_out * x` differ by less than one `p`-th of a reserve
/// unit in either direction.
pub proof fn lemma_withdraw_proportional(x: u64, y: u64, lp_supply: u64, lp_amount: u64, p: int)
    requires
        lp_supply > 0,
        lp_amount <= lp_supply,
        p >= 1,
    ensures
        ({
            let share = spec_share(lp_amount, lp_supply, p);
            let xo = spec_prop_out(x, share, p);
            let yo = spec_prop_out(y, share, p);
            &&& p * (xo * y) <= p * (yo * x) + (p - 1) * x
            &&& p * (yo * x) <= p * (xo * y) + (p - 1) * y
        }),
{
    let share = spec_share(lp_amount, lp_supply, p);
    let xo = spec_prop_out(x, share, p);
    let yo = spec_prop_out(y, share, p);
    assert(lp_amount as int * p >= 0) by (nonlinear_arith)
        requires lp_amount >= 0 && p >= 1;
    lemma_div_mul_le(lp_amount as int * p, lp_supply as int);
    assert(x as int * share >= 0) by (nonlinear_arith)
        requires x >= 0 && share >= 0;
    assert(y as int * share >= 0) by (nonlinear_arith)
        requires y >= 0 && share >= 0;
    let r1 = (x as int * share) % p;
    let r2 = (y as int * share) % p;
    lemma_fundamental_div_mod(x as int * share, p);
    lemma_fundamental_div_mod(y as int * share, p);
    lemma_mod_division_less_than_divisor(x as int * share, p);
    lemma_mod_division_less_than_divisor(y as int * share, p);
    assert(p * (xo * y) - p * (yo * x) == r2 * x - r1 * y) by (nonlinear_arith)
        requires
            x as int * share == p * xo + r1,
            y as int * share == p * yo + r2;
    assert(r2 * x <= (p - 1) * x) by (nonlinear_arith)
        requires r2 <= p - 1 && x >= 0;
    assert(r1 * y <= (p - 1) * y) by (nonlinear_arith)
        requires r1 <= p - 1 && y >= 0;
    assert(r1 * y >= 0) by (nonlinear_arith)
        requires r1 >= 0 && y >= 0;
    assert(r2 * x >= 0) by (nonlinear_arith)
        requires r2 >= 0 && x >= 0;
}

/// Law: a withdrawal truncates against the caller. Each computed leg never
/// exceeds the exact rational share of its reserve:
/// `x_out <= x * lp_amount / lp_supply`, stated multiplied out, and likewise
/// for the Y leg.
pub proof fn lemma_withdraw_truncates_down(x: u64, y: u64, lp_supply: u64, lp_amount: u64, p: int)
    requires
        lp_supply > 0,
        lp_amount <= lp_supply,
        p >= 1,
    ensures
        ({
            let share = spec_share(lp_amount, lp_supply, p);
            &&& spec_prop_out(x, share, p) * lp_supply <= x * lp_amount
            &&& spec_prop_out(y, share, p) * lp_supply <= y * lp_amount
        }),
{
    let share = spec_share(lp_amount, lp_supply, p);
    let xo = spec_prop_out(x, share, p);
    let yo = spec_prop_out(y, share, p);
    assert(lp_amount as int * p >= 0) by (nonlinear_arith)
        requires lp_amount >= 0 && p >= 1;
    lemma_div_mul_le(lp_amount as int * p, lp_supply as int);
    assert(x as int * share >= 0) by (nonlinear_arith)
        requires x >= 0 && share >= 0;
    assert(y as int * share >= 0) by (nonlinear_arith)
        requires y >= 0 && share >= 0;
    lemma_div_mul_le(x as int * share, p);
    lemma_div_mul_le(y as int * share, p);
    assert(xo * lp_supply <= x * lp_amount) by (nonlinear_arith)
        requires
            p * xo <= x as int * share,
            lp_supply as int * share <= lp_amount as int * p,
            0 <= xo,
            0 <= x,
            0 < lp_supply as int,
            0 < p,
            0 <= share;
    assert(yo * lp_supply <= y * lp_amount) by (nonlinear_arith)
        requires
            p * yo <= y as int * share,
            lp_supply as int * share <= lp_amount as int * p,
            0 <= yo,
            0 <= y,
            0 < lp_supply as int,
            0 < p,
            0 <= share;
}

/// Law: the swap output equals the exact quote on the fee-adjusted input,
/// rounded to within one unit. Multiplied out by the divisor `rin + af`:
/// the output is at least the exact value `af * rout / (rin + af)` and
/// exceeds it by less than one unit — the single place truncation can act
/// in the caller's favor, by strictly less than one indivisible unit, while
/// the fee adjustment itself (see `lemma_fee_adjusted_bounds`) truncates
/// against the caller.
pub proof fn lemma_swap_output_bounds(rin: u64, rout: u64, amount_in: u64, fee_bps: u16)
    requires
        rin > 0,
        rout > 0,
        fee_bps < 10000,
    ensures
        ({
            let af = spec_fee_adjusted(amount_in, fee_bps);
            let out = spec_swap_out(rin as int, rout as int, af);
            &&& af * rout <= out * (rin + af)
            &&& out * (rin + af) < af * rout + (rin + af)
        }),
{
    let af = spec_fee_adjusted(amount_in, fee_bps);
    let out = spec_swap_out(rin as int, rout as int, af);
    lemma_fee_adjusted_bounds(amount_in, fee_bps);
    let prod = rin as int * rout as int;
    let denom = rin + af;
    let q = prod / denom;
    let rem = prod % denom;
    assert(rin as int * rout as int >= 0) by (nonlinear_arith)
        requires rin >= 0 && rout >= 0;
    lemma_fundamental_div_mod(prod, denom);
    lemma_mod_division_less_than_divisor(prod, denom);
    assert(out * denom == af * rout + rem) by (nonlinear_arith)
        requires
            rin as int * rout as int == denom * q + rem,
            out == rout - q,
            denom == rin + af;
}

/// Law: failure is idempotent for swaps. A swap that fails leaves the
/// snapshot bit-for-bit unchanged, so performing the same operation again
/// on it yields the very same error.
pub fn swap_failure_idempotent(s: &mut Swap, is_x: bool, amount: u64, min: u64) -> (rr: (
    Result<(), AmmError>,
    Result<(), AmmError>,
))
    requires
        old(s).wf(),
        old(s).swap_error(is_x, amount, min) is Some,
    ensures
        rr.0 is Err,
        rr.1 == rr.0,
        *final(s) == *old(s),
{
    let r1 = s.swap(is_x, amount, min);
    let r2 = s.swap(is_x, amount, min);
    (r1, r2)
}

/// Law: failure is idempotent for withdrawals, exactly as for swaps.
pub fn withdraw_failure_idempotent(s: &mut Withdraw, amount: u64, min_x: u64, min_y: u64) -> (rr:
    (Result<(), AmmError>, Result<(), AmmError>))
    requires
        old(s).withdraw_error(amount, min_x, min_y) is Some,
    ensures
        rr.0 is Err,
        rr.1 == rr.0,
        *final(s) == *old(s),
{
    let r1 = s.withdraw(amount, min_x, min_y);
    let r2 = s.withdraw(amount, min_x, min_y);
    (r1, r2)
}

/// Law: invariant non-decrease, stated on the pool snapshot itself. When
/// every check of a swap passes, the vaults after settlement satisfy the
/// bound of `lemma_swap_invariant_preserved`: the product of the reserves
/// stays above the old product minus one truncation unit, and does not fall
/// at all when the constant-product division is exact.
pub proof fn lemma_swap_invariant_on_pool(s: Swap, is_x: bool, amount: u64, min: u64)
    requires
        s.wf(),
        s.swap_error(is_x, amount, min) is None,
    ensures
        ({
            let af = spec_fee_adjusted(amount, s.config.fee_bps);
            let out = s.spec_amount_out(is_x, amount);
            let old_in = s.vault_of(is_x) as int;
            let old_out = s.vault_of(!is_x) as int;
            &&& (old_in + amount) * (old_out - out) > old_in * old_out - (old_in + af)
            &&& (old_in * old_out) % (old_in + af) == 0 ==> (old_in + amount) * (old_out - out)
                >= old_in * old_out
        }),
{
    lemma_swap_invariant_preserved(s.vault_of(is_x), s.vault_of(!is_x), amount, s.config.fee_bps);
}

/// Law: proportionality and truncation direction, stated on the pool
/// snapshot itself. When every check of a withdrawal passes, its two legs
/// stand in the vaults' own proportion up to one truncation unit per leg,
/// and neither leg exceeds the exact rational share of its vault.
pub proof fn lemma_withdraw_proportional_on_pool(w: Withdraw, amount: u64, min_x: u64, min_y: u64)
    requires
        w.withdraw_error(amount, min_x, min_y) is None,
    ensures
        ({
            let p = w.spec_precision();
            let xo = w.spec_x_out(amount);
            let yo = w.spec_y_out(amount);
            &&& p * (xo * w.vault_y) <= p * (yo * w.vault_x) + (p - 1) * w.vault_x
            &&& p * (yo * w.vault_x) <= p * (xo * w.vault_y) + (p - 1) * w.vault_y
            &&& xo * w.mint_lp_supply <= w.vault_x * amount
            &&& yo * w.mint_lp_supply <= w.vault_y * amount
        }),
{
    let p = w.spec_precision();
    crate::math::lemma_pow10_increases(0nat, w.mint_x_decimals as nat);
    assert(p >= 1);
    lemma_withdraw_proportional(w.vault_x, w.vault_y, w.mint_lp_supply, amount, p);
    lemma_withdraw_truncates_down(w.vault_x, w.vault_y, w.mint_lp_supply, amount, p);
}

} // verus!
