//! Economic core of a tokenized-fundraising protocol.
//!
//! Two coupled subsystems: a fundraising ledger (`ledger`) that takes capital
//! into a project, mints a proportional claim token, and after a time-gated
//! finalization either splits the raise between liquidity and treasury or
//! enables refunds; and a constant-product liquidity pool (`pool`) that
//! receives the liquidity share and supports deposits, withdrawals and swaps.
//!
//! The hosting environment supplies identities, the clock, token balances and
//! the actual token movements: every operation here takes those as plain
//! values, decides, and reports what moved as a returned event. All state
//! transitions and all arithmetic are verified; in particular no verified
//! function panics, every overflow is an explicit error, and the documented
//! pool and ledger invariants hold in every reachable state.

use vstd::prelude::*;

pub mod errors;
pub mod events;
pub mod ledger;
pub mod pool;
pub mod pricing;

verus! {

/// An identity assigned by the hosting ledger: an account, a caller, or a
/// token mint. The library never looks inside one, it only compares them.
pub type AccountId = u64;

} // verus!
