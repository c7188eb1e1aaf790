//! Domain events.
//!
//! Each successful mutating operation returns exactly one event describing
//! what it decided: the identities involved, the amounts, and the caller's
//! clock reading. The hosting environment observes the event, performs the
//! token movements it names, and forwards it to any notifier; the library
//! itself never emits anything.

use vstd::prelude::*;

use crate::AccountId;

verus! {

/// The project authority halted all capital-moving operations.
#[derive(Clone, Copy, Debug, PartialEq, Eq, Structural)]
pub struct ContractPaused {
    pub project: AccountId,
    pub admin: AccountId,
    pub timestamp: i64,
}

/// The project authority lifted the halt.
#[derive(Clone, Copy, Debug, PartialEq, Eq, Structural)]
pub struct ContractUnpaused {
    pub project: AccountId,
    pub admin: AccountId,
    pub timestamp: i64,
}

/// An investment was accepted: `token_amount` claim tokens are to be minted
/// to `investor`.
#[derive(Clone, Copy, Debug, PartialEq, Eq, Structural)]
pub struct InvestmentMade {
    pub project: AccountId,
    pub investor: AccountId,
    pub amount: u64,
    pub token_amount: u64,
    pub timestamp: i64,
}

/// Fundraising ended: on success the project turned active, otherwise
/// refunds were enabled.
#[derive(Clone, Copy, Debug, PartialEq, Eq, Structural)]
pub struct FundraiseFinalized {
    pub project: AccountId,
    pub success: bool,
    pub timestamp: i64,
}

/// A refund was authorized, once, for `investor`; settlement of the refunded
/// capital is the payment collaborator's responsibility.
#[derive(Clone, Copy, Debug, PartialEq, Eq, Structural)]
pub struct RefundClaimed {
    pub project: AccountId,
    pub investor: AccountId,
    pub timestamp: i64,
}

/// Claim tokens were redeemed: `amount` tokens are to be burned from
/// `investor` and `redemption_amount` of value paid out.
#[derive(Clone, Copy, Debug, PartialEq, Eq, Structural)]
pub struct TokensRedeemed {
    pub project: AccountId,
    pub investor: AccountId,
    pub amount: u64,
    pub redemption_amount: u64,
    pub timestamp: i64,
}

/// A deposit entered the pool reserves and `lp_amount` liquidity shares are
/// to be minted to the depositor.
#[derive(Clone, Copy, Debug, PartialEq, Eq, Structural)]
pub struct LiquidityAdded {
    pub amount_a: u64,
    pub amount_b: u64,
    pub lp_amount: u64,
    pub timestamp: i64,
}

/// Liquidity shares were burned and the proportional reserve amounts are to
/// be returned to the caller.
#[derive(Clone, Copy, Debug, PartialEq, Eq, Structural)]
pub struct LiquidityRemoved {
    pub lp_amount: u64,
    pub amount_a: u64,
    pub amount_b: u64,
    pub timestamp: i64,
}

/// A swap traded `amount_in` (of which `fee_amount` stays in the input-side
/// reserve) for `amount_out` of the other token.
#[derive(Clone, Copy, Debug, PartialEq, Eq, Structural)]
pub struct SwapExecuted {
    pub amount_in: u64,
    pub fee_amount: u64,
    pub amount_out: u64,
    pub timestamp: i64,
}

} // verus!
