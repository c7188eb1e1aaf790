//! The liquidity pool: a constant-product market over one token pair.
//!
//! The pool holds two reserves and an outstanding liquidity-share supply.
//! Deposits mint shares, withdrawals burn them for a proportional (floored)
//! part of each reserve, and swaps price by the constant-product formula with
//! the fee retained in the input-side reserve, so the product of the reserves
//! never decreases across a swap. The share supply is zero exactly when both
//! reserves are zero, in every reachable state. Token movements themselves
//! are the hosting environment's job; caller balances come in as plain
//! values and the returned events say what moved.

use vstd::prelude::*;

use crate::errors::ErrorCode;
use crate::events::LiquidityAdded;
use crate::events::LiquidityRemoved;
use crate::events::SwapExecuted;
use crate::pricing;
use crate::AccountId;

verus! {

use vstd::arithmetic::div_mod::lemma_div_is_ordered;
use vstd::arithmetic::div_mod::lemma_div_multiples_vanish;
use vstd::arithmetic::div_mod::lemma_div_pos_is_pos;
use vstd::arithmetic::div_mod::lemma_fundamental_div_mod;
use vstd::arithmetic::div_mod::lemma_mod_division_less_than_divisor;
use vstd::arithmetic::div_mod::lemma_multiply_divide_lt;
use vstd::arithmetic::mul::lemma_mul_inequality;
use vstd::arithmetic::mul::lemma_mul_is_commutative;
use vstd::arithmetic::mul::lemma_mul_strict_inequality;

/// Fee rates are expressed in basis points: parts of this denominator.
pub const BPS_DENOMINATOR: u64 = 10000;

/// Which reserve a swap feeds.
#[derive(Clone, Copy, Debug, PartialEq, Eq, Structural)]
pub enum SwapDirection {
    /// Sell token A for token B.
    AToB,
    /// Sell token B for token A.
    BToA,
}

/// One pool's record: the pair's identities, the two reserves, the
/// outstanding liquidity-share supply, and the fee rate.
#[derive(Clone, Copy, Debug, PartialEq, Eq, Structural)]
pub struct PoolState {
    pub token_a: AccountId,
    pub token_b: AccountId,
    pub token_a_reserve: AccountId,
    pub token_b_reserve: AccountId,
    pub lp_token_mint: AccountId,
    /// Outstanding liquidity-share supply; zero exactly when both reserves
    /// are zero.
    pub total_liquidity: u64,
    pub token_a_amount: u64,
    pub token_b_amount: u64,
    /// Fee rate in basis points, at most [`BPS_DENOMINATOR`], fixed at
    /// creation.
    pub fee: u64,
}

/// `0 <= x / d`, and `d * (x / d) <= x`: flooring never rounds up.
proof fn lemma_floor_bound(x: int, d: int)
    requires
        0 <= x,
        0 < d,
    ensures
        0 <= x / d,
        d * (x / d) <= x,
{
    lemma_fundamental_div_mod(x, d);
    lemma_mod_division_less_than_divisor(x, d);
    lemma_div_pos_is_pos(x, d);
}

/// A share of `supply` applied to a reserve: at most the reserve, exactly the
/// reserve for the whole supply, and strictly less for a partial share.
proof fn lemma_share_bounds(lp: int, reserve: int, supply: int)
    requires
        0 < supply,
        0 <= lp <= supply,
        0 <= reserve,
    ensures
        lp * reserve / supply <= reserve,
        lp == supply ==> lp * reserve / supply == reserve,
        lp < supply && reserve > 0 ==> lp * reserve / supply < reserve,
{
    lemma_mul_inequality(lp, supply, reserve);
    lemma_mul_is_commutative(supply, reserve);
    lemma_div_is_ordered(lp * reserve, supply * reserve, supply);
    lemma_div_multiples_vanish(reserve, supply);
    if lp < supply && reserve > 0 {
        lemma_mul_strict_inequality(lp, supply, reserve);
        lemma_multiply_divide_lt(lp * reserve, supply, reserve);
    }
}

/// The heart of the constant-product rule: with `out` the floored quote for
/// a net input of `net` against reserves `rin` and `rout`, paying the full
/// `amt >= net` into the input reserve keeps the product of the reserves
/// from falling, and strictly grows it when a positive fee was withheld.
pub proof fn lemma_constant_product(rin: int, rout: int, amt: int, net: int, out: int)
    requires
        0 < rin,
        0 < rout,
        0 <= net <= amt,
        out == net * rout / (rin + net),
    ensures
        0 <= out < rout,
        (rin + amt) * (rout - out) >= rin * rout,
        net < amt ==> (rin + amt) * (rout - out) > rin * rout,
{
    let d = rin + net;
    assert(0 <= net * rout) by (nonlinear_arith)
        requires
            net >= 0,
            rout > 0,
    ;
    lemma_floor_bound(net * rout, d);
    assert(net * rout < d * rout) by (nonlinear_arith)
        requires
            d == rin + net,
            rin > 0,
            rout > 0,
            net >= 0,
    ;
    lemma_multiply_divide_lt(net * rout, d, rout);
    assert((rin + amt) * (rout - out) >= rin * rout) by (nonlinear_arith)
        requires
            d == rin + net,
            d * out <= net * rout,
            0 <= out < rout,
            0 < rin,
            0 < rout,
            0 <= net <= amt,
    ;
    if net < amt {
        assert((rin + amt) * (rout - out) > rin * rout) by (nonlinear_arith)
            requires
                d == rin + net,
                d * out <= net * rout,
                0 <= out < rout,
                0 < rin,
                0 < rout,
                0 <= net < amt,
        ;
    }
}

impl PoolState {
    /// Well-formedness: holds of every reachable pool record. The share
    /// supply is zero exactly when the pool is empty, and a live pool keeps
    /// both reserves positive.
    pub open spec fn wf(self) -> bool {
        &&& self.fee <= BPS_DENOMINATOR
        &&& (self.total_liquidity == 0 ==> self.token_a_amount == 0 && self.token_b_amount == 0)
        &&& (self.total_liquidity > 0 ==> self.token_a_amount > 0 && self.token_b_amount > 0)
    }

    /// Creates an empty pool over the given pair. Fails only on a fee rate
    /// above [`BPS_DENOMINATOR`] basis points.
    pub fn initialize_pool(
        token_a: AccountId,
        token_b: AccountId,
        token_a_reserve: AccountId,
        token_b_reserve: AccountId,
        lp_token_mint: AccountId,
        fee: u64,
    ) -> (r: Result<PoolState, ErrorCode>)
        ensures
            r matches Ok(p) ==> p == (PoolState {
                token_a,
                token_b,
                token_a_reserve,
                token_b_reserve,
                lp_token_mint,
                total_liquidity: 0,
                token_a_amount: 0,
                token_b_amount: 0,
                fee,
            }) && p.wf(),
            r is Ok <==> fee <= BPS_DENOMINATOR,
            r is Err ==> r == Err::<PoolState, ErrorCode>(ErrorCode::InvalidConfig),
    {
        if fee > BPS_DENOMINATOR {
            return Err(ErrorCode::InvalidConfig);
        }
        Ok(
            PoolState {
                token_a,
                token_b,
                token_a_reserve,
                token_b_reserve,
                lp_token_mint,
                total_liquidity: 0,
                token_a_amount: 0,
                token_b_amount: 0,
                fee,
            },
        )
    }

    /// The shares a deposit earns from a live pool: the smaller of the two
    /// proportional claims, so a deposit in the wrong ratio earns no extra
    /// shares for its excess side.
    pub open spec fn proportional_shares(self, amount_a: u64, amount_b: u64) -> int {
        let share_a = amount_a * self.total_liquidity / (self.token_a_amount as int);
        let share_b = amount_b * self.total_liquidity / (self.token_b_amount as int);
        if share_a <= share_b {
            share_a
        } else {
            share_b
        }
    }

    /// Why a deposit would be rejected, in the order the checks run; `None`
    /// when it is accepted.
    pub open spec fn add_liquidity_error(
        self,
        amount_a: u64,
        amount_b: u64,
        balance_a: u64,
        balance_b: u64,
    ) -> Option<ErrorCode> {
        if balance_a < amount_a || balance_b < amount_b {
            Some(ErrorCode::InsufficientFunds)
        } else if self.total_liquidity == 0 {
            if amount_a == 0 || amount_b == 0 {
                Some(ErrorCode::InvalidLiquidityAmount)
            } else {
                None
            }
        } else if self.proportional_shares(amount_a, amount_b) > u64::MAX {
            Some(ErrorCode::Overflow)
        } else if self.token_a_amount + amount_a > u64::MAX || self.token_b_amount + amount_b
            > u64::MAX {
            Some(ErrorCode::Overflow)
        } else if self.total_liquidity + self.proportional_shares(amount_a, amount_b)
            > u64::MAX {
            Some(ErrorCode::Overflow)
        } else {
            None
        }
    }

    /// Moves `amount_a` and `amount_b` from the caller's balances into the
    /// reserves and reports the liquidity shares to mint: the floored square
    /// root of the deposits' product for the pool's first deposit (which
    /// must fund both sides), and the smaller proportional claim afterwards.
    pub fn add_liquidity(
        &mut self,
        amount_a: u64,
        amount_b: u64,
        balance_a: u64,
        balance_b: u64,
        now: i64,
    ) -> (r: Result<LiquidityAdded, ErrorCode>)
        requires
            old(self).wf(),
        ensures
            final(self).wf(),
            match r {
                Ok(ev) => {
                    &&& old(self).add_liquidity_error(amount_a, amount_b, balance_a, balance_b)
                        is None
                    &&& if old(self).total_liquidity == 0 {
                        pricing::is_floor_sqrt(amount_a * amount_b, ev.lp_amount as int)
                    } else {
                        ev.lp_amount == old(self).proportional_shares(amount_a, amount_b)
                    }
                    &&& ev == (LiquidityAdded {
                        amount_a,
                        amount_b,
                        lp_amount: ev.lp_amount,
                        timestamp: now,
                    })
                    &&& *final(self) == (PoolState {
                        token_a_amount: (old(self).token_a_amount + amount_a) as u64,
                        token_b_amount: (old(self).token_b_amount + amount_b) as u64,
                        total_liquidity: (old(self).total_liquidity + ev.lp_amount) as u64,
                        ..*old(self)
                    })
                },
                Err(e) => {
                    &&& *final(self) == *old(self)
                    &&& old(self).add_liquidity_error(amount_a, amount_b, balance_a, balance_b)
                        == Some(e)
                },
            },
    {
        if balance_a < amount_a || balance_b < amount_b {
            return Err(ErrorCode::InsufficientFunds);
        }
        let lp_amount: u64 = if self.total_liquidity == 0 {
            if amount_a == 0 || amount_b == 0 {
                return Err(ErrorCode::InvalidLiquidityAmount);
            }
            proof {
                assert((amount_a as int) * (amount_b as int) <= u64::MAX * u64::MAX)
                    by (nonlinear_arith)
                    requires
                        amount_a <= u64::MAX,
                        amount_b <= u64::MAX,
                ;
            }
            let wide: u128 = (amount_a as u128) * (amount_b as u128);
            let root: u64 = pricing::isqrt(wide);
            proof {
                assert((amount_a as int) * (amount_b as int) >= 1) by (nonlinear_arith)
                    requires
                        amount_a >= 1,
                        amount_b >= 1,
                ;
                assert(root >= 1) by (nonlinear_arith)
                    requires
                        (amount_a as int) * (amount_b as int) >= 1,
                        (amount_a as int) * (amount_b as int) < (root as int + 1) * (root as int
                            + 1),
                        root >= 0,
                ;
            }
            root
        } else {
            proof {
                assert((amount_a as int) * (self.total_liquidity as int) <= u128::MAX)
                    by (nonlinear_arith)
                    requires
                        amount_a <= u64::MAX,
                        self.total_liquidity <= u64::MAX,
                ;
                assert((amount_b as int) * (self.total_liquidity as int) <= u128::MAX)
                    by (nonlinear_arith)
                    requires
                        amount_b <= u64::MAX,
                        self.total_liquidity <= u64::MAX,
                ;
            }
            let share_a: u128 = (amount_a as u128) * (self.total_liquidity as u128) / (
            self.token_a_amount as u128);
            let share_b: u128 = (amount_b as u128) * (self.total_liquidity as u128) / (
            self.token_b_amount as u128);
            let smaller: u128 = if share_a <= share_b {
                share_a
            } else {
                share_b
            };
            if smaller > u64::MAX as u128 {
                return Err(ErrorCode::Overflow);
            }
            smaller as u64
        };
        let new_a: u64 = match self.token_a_amount.checked_add(amount_a) {
            Some(v) => v,
            None => {
                return Err(ErrorCode::Overflow);
            },
        };
        let new_b: u64 = match self.token_b_amount.checked_add(amount_b) {
            Some(v) => v,
            None => {
                return Err(ErrorCode::Overflow);
            },
        };
        let new_liquidity: u64 = match self.total_liquidity.checked_add(lp_amount) {
            Some(v) => v,
            None => {
                return Err(ErrorCode::Overflow);
            },
        };
        self.token_a_amount = new_a;
        self.token_b_amount = new_b;
        self.total_liquidity = new_liquidity;
        Ok(LiquidityAdded { amount_a, amount_b, lp_amount, timestamp: now })
    }

    /// Why a withdrawal would be rejected; `None` when it proceeds.
    pub open spec fn remove_liquidity_error(
        self,
        lp_amount: u64,
        lp_balance: u64,
    ) -> Option<ErrorCode> {
        if self.total_liquidity == 0 || lp_amount > self.total_liquidity {
            Some(ErrorCode::InsufficientLiquidity)
        } else if lp_balance < lp_amount {
            Some(ErrorCode::InsufficientFunds)
        } else {
            None
        }
    }

    /// Burns `lp_amount` of the caller's shares and returns the proportional,
    /// floored part of each reserve — never more than the reserve holds; the
    /// fractional remainder stays in the pool as dust.
    pub fn remove_liquidity(&mut self, lp_amount: u64, lp_balance: u64, now: i64) -> (r: Result<
        LiquidityRemoved,
        ErrorCode,
    >)
        requires
            old(self).wf(),
        ensures
            final(self).wf(),
            match r {
                Ok(ev) => {
                    &&& old(self).remove_liquidity_error(lp_amount, lp_balance) is None
                    &&& ev == (LiquidityRemoved {
                        lp_amount,
                        amount_a: (lp_amount * old(self).token_a_amount / (
                        old(self).total_liquidity as int)) as u64,
                        amount_b: (lp_amount * old(self).token_b_amount / (
                        old(self).total_liquidity as int)) as u64,
                        timestamp: now,
                    })
                    &&& ev.amount_a <= old(self).token_a_amount
                    &&& ev.amount_b <= old(self).token_b_amount
                    &&& *final(self) == (PoolState {
                        token_a_amount: (old(self).token_a_amount - ev.amount_a) as u64,
                        token_b_amount: (old(self).token_b_amount - ev.amount_b) as u64,
                        total_liquidity: (old(self).total_liquidity - lp_amount) as u64,
                        ..*old(self)
                    })
                },
                Err(e) => {
                    &&& *final(self) == *old(self)
                    &&& old(self).remove_liquidity_error(lp_amount, lp_balance) == Some(e)
                },
            },
    {
        if self.total_liquidity == 0 || lp_amount > self.total_liquidity {
            return Err(ErrorCode::InsufficientLiquidity);
        }
        if lp_balance < lp_amount {
            return Err(ErrorCode::InsufficientFunds);
        }
        let amount_a: u64 = pricing::proportion(lp_amount, self.token_a_amount,
            self.total_liquidity);
        let amount_b: u64 = pricing::proportion(lp_amount, self.token_b_amount,
            self.total_liquidity);
        proof {
            lemma_share_bounds(lp_amount as int, self.token_a_amount as int,
                self.total_liquidity as int);
            lemma_share_bounds(lp_amount as int, self.token_b_amount as int,
                self.total_liquidity as int);
        }
        self.token_a_amount -= amount_a;
        self.token_b_amount -= amount_b;
        self.total_liquidity -= lp_amount;
        Ok(LiquidityRemoved { lp_amount, amount_a, amount_b, timestamp: now })
    }

    /// The reserve a swap pays into.
    pub open spec fn reserve_in(self, direction: SwapDirection) -> u64 {
        if direction == SwapDirection::AToB {
            self.token_a_amount
        } else {
            self.token_b_amount
        }
    }

    /// The reserve a swap pays out of.
    pub open spec fn reserve_out(self, direction: SwapDirection) -> u64 {
        if direction == SwapDirection::AToB {
            self.token_b_amount
        } else {
            self.token_a_amount
        }
    }

    /// The fee withheld from a swap's input, floored.
    pub open spec fn swap_fee(self, amount_in: u64) -> int {
        amount_in * self.fee / (BPS_DENOMINATOR as int)
    }

    /// The constant-product quote for a swap: the net input (after the fee)
    /// priced against the current reserves, floored.
    pub open spec fn swap_output(self, amount_in: u64, direction: SwapDirection) -> int {
        let net = amount_in - self.swap_fee(amount_in);
        net * self.reserve_out(direction) / (self.reserve_in(direction) + net)
    }

    /// Why a swap would be rejected; `None` when it executes.
    pub open spec fn swap_error(
        self,
        amount_in: u64,
        min_amount_out: u64,
        direction: SwapDirection,
    ) -> Option<ErrorCode> {
        if self.total_liquidity == 0 {
            Some(ErrorCode::InsufficientLiquidity)
        } else if self.swap_output(amount_in, direction) < min_amount_out {
            Some(ErrorCode::SlippageExceeded)
        } else if self.reserve_in(direction) + amount_in > u64::MAX {
            Some(ErrorCode::Overflow)
        } else {
            None
        }
    }

    /// Trades `amount_in` against the pool at the constant-product price.
    /// The fee share of the input stays in the input-side reserve, so the
    /// product of the reserves never falls, and grows whenever the fee
    /// withheld is positive. A quote below `min_amount_out` is rejected as
    /// slippage with no state change.
    pub fn swap(
        &mut self,
        amount_in: u64,
        min_amount_out: u64,
        direction: SwapDirection,
        now: i64,
    ) -> (r: Result<SwapExecuted, ErrorCode>)
        requires
            old(self).wf(),
        ensures
            final(self).wf(),
            match r {
                Ok(ev) => {
                    &&& old(self).swap_error(amount_in, min_amount_out, direction) is None
                    &&& ev == (SwapExecuted {
                        amount_in,
                        fee_amount: old(self).swap_fee(amount_in) as u64,
                        amount_out: old(self).swap_output(amount_in, direction) as u64,
                        timestamp: now,
                    })
                    &&& direction == SwapDirection::AToB ==> *final(self) == (PoolState {
                        token_a_amount: (old(self).token_a_amount + amount_in) as u64,
                        token_b_amount: (old(self).token_b_amount - ev.amount_out) as u64,
                        ..*old(self)
                    })
                    &&& direction == SwapDirection::BToA ==> *final(self) == (PoolState {
                        token_b_amount: (old(self).token_b_amount + amount_in) as u64,
                        token_a_amount: (old(self).token_a_amount - ev.amount_out) as u64,
                        ..*old(self)
                    })
                    &&& final(self).token_a_amount * final(self).token_b_amount
                        >= old(self).token_a_amount * old(self).token_b_amount
                    &&& old(self).swap_fee(amount_in) >= 1 ==> final(self).token_a_amount
                        * final(self).token_b_amount > old(self).token_a_amount
                        * old(self).token_b_amount
                },
                Err(e) => {
                    &&& *final(self) == *old(self)
                    &&& old(self).swap_error(amount_in, min_amount_out, direction) == Some(e)
                },
            },
    {
        if self.total_liquidity == 0 {
            return Err(ErrorCode::InsufficientLiquidity);
        }
        let (reserve_in, reserve_out): (u64, u64) = match direction {
            SwapDirection::AToB => (self.token_a_amount, self.token_b_amount),
            SwapDirection::BToA => (self.token_b_amount, self.token_a_amount),
        };
        let fee_amount: u64 = pricing::proportion(self.fee, amount_in, BPS_DENOMINATOR);
        proof {
            lemma_mul_is_commutative(self.fee as int, amount_in as int);
        }
        let net: u64 = amount_in - fee_amount;
        proof {
            assert((net as int) * (reserve_out as int) <= u128::MAX) by (nonlinear_arith)
                requires
                    net <= u64::MAX,
                    reserve_out <= u64::MAX,
            ;
        }
        let numerator: u128 = (net as u128) * (reserve_out as u128);
        let denominator: u128 = (reserve_in as u128) + (net as u128);
        let out_wide: u128 = numerator / denominator;
        proof {
            lemma_constant_product(reserve_in as int, reserve_out as int, amount_in as int,
                net as int, out_wide as int);
        }
        let amount_out: u64 = out_wide as u64;
        if amount_out < min_amount_out {
            return Err(ErrorCode::SlippageExceeded);
        }
        let new_in: u64 = match reserve_in.checked_add(amount_in) {
            Some(v) => v,
            None => {
                return Err(ErrorCode::Overflow);
            },
        };
        let new_out: u64 = reserve_out - amount_out;
        match direction {
            SwapDirection::AToB => {
                self.token_a_amount = new_in;
                self.token_b_amount = new_out;
            },
            SwapDirection::BToA => {
                self.token_b_amount = new_in;
                self.token_a_amount = new_out;
            },
        }
        proof {
            lemma_mul_is_commutative(new_in as int, new_out as int);
            lemma_mul_is_commutative(reserve_in as int, reserve_out as int);
        }
        Ok(SwapExecuted { amount_in, fee_amount, amount_out, timestamp: now })
    }
}

/// The pool's share supply is zero exactly when both reserves are zero, in
/// every reachable state: creation establishes `wf` and every operation
/// preserves it.
pub proof fn lemma_liquidity_zero_iff_empty(p: PoolState)
    requires
        p.wf(),
    ensures
        p.total_liquidity == 0 <==> (p.token_a_amount == 0 && p.token_b_amount == 0),
{
}

/// Round trip: depositing `(amount_a, amount_b)` and immediately withdrawing
/// the shares that deposit minted returns at most `(amount_a, amount_b)` —
/// rounding losses only ever favor the pool.
pub proof fn lemma_add_remove_round_trip(pre: PoolState, amount_a: u64, amount_b: u64, lp: int)
    requires
        pre.wf(),
        0 <= lp,
        pre.total_liquidity > 0 ==> lp == pre.proportional_shares(amount_a, amount_b),
        pre.total_liquidity == 0 ==> amount_a > 0 && amount_b > 0 && pricing::is_floor_sqrt(
            amount_a * amount_b,
            lp,
        ),
    ensures
        lp * (pre.token_a_amount + amount_a) / (pre.total_liquidity + lp) <= amount_a,
        lp * (pre.token_b_amount + amount_b) / (pre.total_liquidity + lp) <= amount_b,
{
    if pre.total_liquidity == 0 {
        assert((amount_a as int) * (amount_b as int) >= 1) by (nonlinear_arith)
            requires
                amount_a >= 1,
                amount_b >= 1,
        ;
        assert(lp >= 1);
        lemma_div_multiples_vanish(amount_a as int, lp);
        lemma_div_multiples_vanish(amount_b as int, lp);
    } else {
        lemma_round_trip_side(pre.total_liquidity as int, pre.token_a_amount as int,
            amount_a as int, lp);
        lemma_round_trip_side(pre.total_liquidity as int, pre.token_b_amount as int,
            amount_b as int, lp);
    }
}

/// One side of the round trip: shares bounded by the proportional claim on
/// one reserve withdraw at most the amount that was deposited on that side.
proof fn lemma_round_trip_side(supply: int, reserve: int, amount: int, lp: int)
    requires
        0 < supply,
        0 < reserve,
        0 <= amount,
        0 <= lp,
        lp <= amount * supply / reserve,
    ensures
        lp * (reserve + amount) / (supply + lp) <= amount,
{
    let claim = amount * supply / reserve;
    assert(0 <= amount * supply) by (nonlinear_arith)
        requires
            0 <= amount,
            0 < supply,
    ;
    lemma_floor_bound(amount * supply, reserve);
    lemma_mul_is_commutative(reserve, claim);
    lemma_mul_inequality(lp, claim, reserve);
    assert(lp * reserve <= amount * supply) by (nonlinear_arith)
        requires
            lp * reserve <= claim * reserve,
            claim * reserve <= amount * supply,
    ;
    assert(lp * (reserve + amount) <= amount * (supply + lp)) by (nonlinear_arith)
        requires
            lp * reserve <= amount * supply,
            0 <= lp,
            0 <= amount,
    ;
    lemma_div_is_ordered(lp * (reserve + amount), amount * (supply + lp), supply + lp);
    lemma_div_multiples_vanish(amount, supply + lp);
    lemma_mul_is_commutative(supply + lp, amount);
}

} // verus!
