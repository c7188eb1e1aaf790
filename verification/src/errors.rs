//! Error taxonomy of the protocol.
//!
//! Every precondition violation aborts the whole operation with a specific
//! error, never a generic failure, and never a partial state change. Each
//! error classifies into a [`ErrorKind`] that tells the caller whether to
//! retry, wait, or change inputs.

use vstd::prelude::*;

verus! {

/// How a caller should react to a failure.
#[derive(Clone, Copy, Debug, PartialEq, Eq, Structural)]
pub enum ErrorKind {
    /// Invalid parameters: not retryable without changing inputs.
    Config,
    /// Operation invalid for the current phase or time: may become valid later.
    State,
    /// The caller lacks the required identity or approval.
    Authorization,
    /// Overflow in a checked operation: a defect, never retried as-is.
    Arithmetic,
    /// The market moved past the caller's tolerance: retry with new parameters.
    Slippage,
    /// A balance is too low: retryable after funding.
    InsufficientFunds,
}

/// Failures of the fundraising ledger.
#[derive(Clone, Copy, Debug, PartialEq, Eq, Structural)]
pub enum PiDaoError {
    /// The contract is paused.
    ContractPaused,
    /// Invalid configuration parameters.
    InvalidConfig,
    /// Investment amount out of bounds.
    InvalidInvestmentAmount,
    /// Operation invalid for the current project phase.
    InvalidProjectState,
    /// The fundraising period has ended.
    FundraisingEnded,
    /// Fundraising is still active.
    FundraisingActive,
    /// The supplied invite code does not match.
    InvalidInviteCode,
    /// The maximum raise amount would be exceeded.
    MaxRaiseExceeded,
    /// Arithmetic overflow.
    Overflow,
    /// Refunds are not enabled.
    RefundsNotEnabled,
    /// This investor's refund was already authorized once.
    RefundAlreadyClaimed,
    /// The project has not expired yet.
    ProjectNotExpired,
    /// A token balance is too low.
    InsufficientFunds,
    /// The caller is not the project authority.
    UnauthorizedAccess,
}

impl PiDaoError {
    /// The taxonomy class of this error.
    pub open spec fn kind_spec(self) -> ErrorKind {
        match self {
            PiDaoError::ContractPaused => ErrorKind::State,
            PiDaoError::InvalidConfig => ErrorKind::Config,
            PiDaoError::InvalidInvestmentAmount => ErrorKind::Config,
            PiDaoError::InvalidProjectState => ErrorKind::State,
            PiDaoError::FundraisingEnded => ErrorKind::State,
            PiDaoError::FundraisingActive => ErrorKind::State,
            PiDaoError::InvalidInviteCode => ErrorKind::Authorization,
            PiDaoError::MaxRaiseExceeded => ErrorKind::Config,
            PiDaoError::Overflow => ErrorKind::Arithmetic,
            PiDaoError::RefundsNotEnabled => ErrorKind::State,
            PiDaoError::RefundAlreadyClaimed => ErrorKind::State,
            PiDaoError::ProjectNotExpired => ErrorKind::State,
            PiDaoError::InsufficientFunds => ErrorKind::InsufficientFunds,
            PiDaoError::UnauthorizedAccess => ErrorKind::Authorization,
        }
    }

    /// The taxonomy class of this error.
    pub fn kind(&self) -> (k: ErrorKind)
        ensures
            k == self.kind_spec(),
    {
        match self {
            PiDaoError::ContractPaused => ErrorKind::State,
            PiDaoError::InvalidConfig => ErrorKind::Config,
            PiDaoError::InvalidInvestmentAmount => ErrorKind::Config,
            PiDaoError::InvalidProjectState => ErrorKind::State,
            PiDaoError::FundraisingEnded => ErrorKind::State,
            PiDaoError::FundraisingActive => ErrorKind::State,
            PiDaoError::InvalidInviteCode => ErrorKind::Authorization,
            PiDaoError::MaxRaiseExceeded => ErrorKind::Config,
            PiDaoError::Overflow => ErrorKind::Arithmetic,
            PiDaoError::RefundsNotEnabled => ErrorKind::State,
            PiDaoError::RefundAlreadyClaimed => ErrorKind::State,
            PiDaoError::ProjectNotExpired => ErrorKind::State,
            PiDaoError::InsufficientFunds => ErrorKind::InsufficientFunds,
            PiDaoError::UnauthorizedAccess => ErrorKind::Authorization,
        }
    }
}

/// Failures of the liquidity pool.
#[derive(Clone, Copy, Debug, PartialEq, Eq, Structural)]
pub enum ErrorCode {
    /// The fee rate is outside 0..=10000 basis points.
    InvalidConfig,
    /// A first deposit must fund both sides of the pair.
    InvalidLiquidityAmount,
    /// More liquidity shares than the outstanding supply, or an empty pool.
    InsufficientLiquidity,
    /// A token balance is too low.
    InsufficientFunds,
    /// Amount out less than the caller's minimum.
    SlippageExceeded,
    /// Arithmetic overflow.
    Overflow,
}

impl ErrorCode {
    /// The taxonomy class of this error.
    pub open spec fn kind_spec(self) -> ErrorKind {
        match self {
            ErrorCode::InvalidConfig => ErrorKind::Config,
            ErrorCode::InvalidLiquidityAmount => ErrorKind::Config,
            ErrorCode::InsufficientLiquidity => ErrorKind::InsufficientFunds,
            ErrorCode::InsufficientFunds => ErrorKind::InsufficientFunds,
            ErrorCode::SlippageExceeded => ErrorKind::Slippage,
            ErrorCode::Overflow => ErrorKind::Arithmetic,
        }
    }

    /// The taxonomy class of this error.
    pub fn kind(&self) -> (k: ErrorKind)
        ensures
            k == self.kind_spec(),
    {
        match self {
            ErrorCode::InvalidConfig => ErrorKind::Config,
            ErrorCode::InvalidLiquidityAmount => ErrorKind::Config,
            ErrorCode::InsufficientLiquidity => ErrorKind::InsufficientFunds,
            ErrorCode::InsufficientFunds => ErrorKind::InsufficientFunds,
            ErrorCode::SlippageExceeded => ErrorKind::Slippage,
            ErrorCode::Overflow => ErrorKind::Arithmetic,
        }
    }
}

} // verus!
