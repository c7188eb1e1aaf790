//! Overflow-checked multiply, divide and square root shared by the
//! fundraising ledger and the liquidity pool.
//!
//! Every product is taken through a 128-bit intermediate, so a result is
//! either exact or reported as an overflow; divisions round toward zero.

use vstd::prelude::*;

verus! {

use vstd::arithmetic::div_mod::lemma_div_is_ordered;
use vstd::arithmetic::div_mod::lemma_div_multiples_vanish;
use vstd::arithmetic::mul::lemma_mul_inequality;
use vstd::arithmetic::mul::lemma_mul_is_commutative;

/// Fixed-point price application: the claim tokens minted for an investment,
/// or the value paid out for redeemed tokens.
pub fn apply_price(amount: u64, price: u64) -> (r: Option<u64>)
    ensures
        r matches Some(v) ==> amount * price <= u64::MAX && v == amount * price,
        r is None ==> amount * price > u64::MAX,
{
    amount.checked_mul(price)
}

/// `a * b / c` with a 128-bit intermediate, so the product itself cannot
/// overflow; `None` exactly when the quotient does not fit in 64 bits.
pub fn mul_div(a: u64, b: u64, c: u64) -> (r: Option<u64>)
    requires
        c > 0,
    ensures
        r matches Some(v) ==> a * b / (c as int) <= u64::MAX && v == a * b / (c as int),
        r is None ==> a * b / (c as int) > u64::MAX,
{
    proof {
        assert((a as int) * (b as int) <= u128::MAX) by (nonlinear_arith)
            requires
                a <= u64::MAX,
                b <= u64::MAX,
        ;
    }
    let wide: u128 = (a as u128) * (b as u128);
    let q: u128 = wide / (c as u128);
    if q <= u64::MAX as u128 {
        Some(q as u64)
    } else {
        None
    }
}

/// `part * value / whole` for `part <= whole`: a proportional share of
/// `value`, which therefore never exceeds `value`.
pub fn proportion(part: u64, value: u64, whole: u64) -> (r: u64)
    requires
        0 < whole,
        part <= whole,
    ensures
        r == part * value / (whole as int),
        r <= value,
{
    proof {
        assert((part as int) * (value as int) <= u128::MAX) by (nonlinear_arith)
            requires
                part <= u64::MAX,
                value <= u64::MAX,
        ;
        lemma_mul_inequality(part as int, whole as int, value as int);
        lemma_mul_is_commutative(whole as int, value as int);
        lemma_div_is_ordered(
            (part as int) * (value as int),
            (whole as int) * (value as int),
            whole as int,
        );
        lemma_div_multiples_vanish(value as int, whole as int);
    }
    let wide: u128 = (part as u128) * (value as u128);
    let q: u128 = wide / (whole as u128);
    q as u64
}

/// `r` is the floor of the square root of `n`.
pub open spec fn is_floor_sqrt(n: int, r: int) -> bool {
    &&& 0 <= r
    &&& r * r <= n
    &&& n < (r + 1) * (r + 1)
}

/// Floor of the square root, by binary search on a 128-bit radicand; seeds a
/// pool's first liquidity shares from the product of the two deposits.
pub fn isqrt(n: u128) -> (r: u64)
    requires
        n <= u64::MAX * u64::MAX,
    ensures
        is_floor_sqrt(n as int, r as int),
{
    let mut lo: u64 = 0;
    let mut hi: u64 = u64::MAX;
    proof {
        assert((n as int) < (u64::MAX as int + 1) * (u64::MAX as int + 1)) by (nonlinear_arith)
            requires
                n <= u64::MAX * u64::MAX,
        ;
    }
    while lo < hi
        invariant
            lo <= hi,
            (lo as int) * (lo as int) <= n as int,
            (n as int) < (hi as int + 1) * (hi as int + 1),
        decreases hi - lo,
    {
        let mid: u64 = lo + 1 + (hi - lo - 1) / 2;
        proof {
            assert((mid as int) * (mid as int) <= u128::MAX) by (nonlinear_arith)
                requires
                    mid <= u64::MAX,
            ;
        }
        let sq: u128 = (mid as u128) * (mid as u128);
        if sq <= n {
            lo = mid;
        } else {
            hi = mid - 1;
        }
    }
    lo
}

} // verus!
