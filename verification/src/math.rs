//! Overflow-checked arithmetic utilities over unsigned 64/128-bit
//! magnitudes: multiply, divide, power of ten, and integer square root.
//! Every layer above builds on these; an overflow is always reported, never
//! silently wrapped.

use vstd::prelude::*;
use crate::errors::AmmError;

verus! {

/// `10^e`, as a mathematical integer.
pub open spec fn spec_pow10(e: nat) -> nat
    decreases e,
{
    if e == 0 {
        1
    } else {
        10 * spec_pow10((e - 1) as nat)
    }
}

/// The product of two 64-bit magnitudes always fits 128 bits.
pub proof fn lemma_u64_mul_fits_u128(a: int, b: int)
    by (nonlinear_arith)
    requires
        0 <= a <= u64::MAX,
        0 <= b <= u64::MAX,
    ensures
        0 <= a * b <= u128::MAX,
{
}

/// Multiplying by a quotient of the same divisor stays below the dividend:
/// `b * (a / b) <= a` for positive `b`.
pub proof fn lemma_div_mul_le(a: int, b: int)
    by (nonlinear_arith)
    requires
        0 <= a,
        0 < b,
    ensures
        b * (a / b) <= a,
        0 <= a / b,
{
}

/// Dividing a product by one of its factors truncates to at most the other
/// factor: `(a * c) / b <= c` whenever `a <= b`.
pub proof fn lemma_mul_div_le_factor(a: int, b: int, c: int)
    requires
        0 <= a <= b,
        0 < b,
        0 <= c,
    ensures
        0 <= (a * c) / b <= c,
{
    assert(a * c <= b * c) by (nonlinear_arith)
        requires
            0 <= a <= b,
            0 <= c;
    assert((a * c) / b <= (b * c) / b) by {
        vstd::arithmetic::div_mod::lemma_div_is_ordered(a * c, b * c, b);
    }
    assert((b * c) / b == c) by {
        vstd::arithmetic::div_mod::lemma_div_by_multiple(c, b);
    }
}

/// Overflow-checked product of two 128-bit magnitudes.
pub fn checked_mul_u128(a: u128, b: u128) -> (r: Result<u128, AmmError>)
    ensures
        r is Ok <==> a * b <= u128::MAX,
        r matches Ok(v) ==> v == a * b,
        r is Err ==> r == Err::<u128, AmmError>(AmmError::ArithmeticOverflow),
{
    match a.checked_mul(b) {
        Some(v) => Ok(v),
        None => Err(AmmError::ArithmeticOverflow),
    }
}

/// Truncating division of 128-bit magnitudes; the divisor must be positive.
pub fn div_u128(a: u128, b: u128) -> (r: u128)
    requires
        b > 0,
    ensures
        r == a / b,
{
    a / b
}

/// `10^exp` as a 32-bit value, or `None` when that power does not fit:
/// exactly the powers `10^0` through `10^9` are representable.
pub fn pow10(exp: u32) -> (r: Option<u32>)
    ensures
        r is Some <==> exp <= 9,
        r matches Some(v) ==> v == spec_pow10(exp as nat) && v >= 1,
{
    if exp > 9 {
        return None;
    }
    let mut i: u32 = 0;
    let mut acc: u32 = 1;
    while i < exp
        invariant
            i <= exp <= 9,
            acc == spec_pow10(i as nat),
            1 <= acc,
            acc <= 1000000000,
        decreases exp - i,
    {
        proof {
            lemma_pow10_values();
            lemma_pow10_increases((i + 1) as nat, 9nat);
        }
        acc = acc * 10;
        i = i + 1;
    }
    Some(acc)
}

/// The concrete value of the largest power of ten that fits 32 bits.
pub proof fn lemma_pow10_values()
    ensures
        spec_pow10(9) == 1000000000,
{
    reveal_with_fuel(spec_pow10, 10);
}

/// Powers of ten grow with the exponent.
pub proof fn lemma_pow10_increases(e1: nat, e2: nat)
    requires
        e1 <= e2,
    ensures
        spec_pow10(e1) <= spec_pow10(e2),
    decreases e2 - e1,
{
    if e1 < e2 {
        lemma_pow10_increases(e1, (e2 - 1) as nat);
        assert(spec_pow10(e2) == 10 * spec_pow10((e2 - 1) as nat));
        assert(spec_pow10((e2 - 1) as nat) <= 10 * spec_pow10((e2 - 1) as nat))
            by (nonlinear_arith)
            requires spec_pow10((e2 - 1) as nat) >= 0;
    }
}

/// Largest `r` with `r * r <= x`: the integer square root, rounded down.
pub fn sqrt_u64(x: u64) -> (r: u64)
    ensures
        r * r <= x,
        x < (r + 1) * (r + 1),
{
    if x == 0 {
        return 0;
    }
    let mut lo: u64 = 0;
    let mut hi: u64 = 4294967296;
    proof {
        assert(4294967296int * 4294967296int > u64::MAX) by (nonlinear_arith);
    }
    while lo + 1 < hi
        invariant
            lo < hi <= 4294967296,
            lo * lo <= x,
            x < hi * hi,
        decreases hi - lo,
    {
        let mid: u64 = lo + (hi - lo) / 2;
        proof {
            lemma_u64_mul_fits_u128(mid as int, mid as int);
        }
        let sq: u128 = (mid as u128) * (mid as u128);
        if sq <= x as u128 {
            lo = mid;
        } else {
            hi = mid;
        }
    }
    lo
}

} // verus!
