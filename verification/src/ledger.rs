//! The fundraising ledger: one project's configuration, schedule, running
//! totals and phase machine.
//!
//! A project starts in [`ProjectStatus::Fundraising`] and accepts investments
//! during a fixed seven-day window. After the window, a one-time finalization
//! either turns it [`ProjectStatus::Active`] (splitting the raise 90/10
//! between treasury and liquidity) or, when the minimum raise was missed,
//! [`ProjectStatus::Refunding`]. Phases are never re-entered. Time and the
//! caller's identity are supplied by the hosting environment on every call;
//! token movements are reported through the returned events.

use vstd::prelude::*;

use crate::errors::PiDaoError;
use crate::events::ContractPaused;
use crate::events::ContractUnpaused;
use crate::events::FundraiseFinalized;
use crate::events::InvestmentMade;
use crate::events::RefundClaimed;
use crate::events::TokensRedeemed;
use crate::pricing;
use crate::AccountId;

verus! {

use vstd::arithmetic::div_mod::lemma_div_is_ordered_by_denominator;
use vstd::arithmetic::div_mod::lemma_div_multiples_vanish;

/// Length of the fundraising window: one week of seconds.
pub const FUNDRAISE_WINDOW: i64 = 7 * 24 * 60 * 60;

/// Share of a successful raise that seeds the liquidity pool, in percent.
pub const LIQUIDITY_SHARE_PERCENT: u64 = 10;

/// Lifecycle phase of a project. Transitions are one-directional:
/// `Fundraising` moves to `Active` or `Refunding` on finalization and the
/// ledger never leaves either; redemption is unlocked in `Active` purely by
/// the expiration time, not by a further phase change.
#[derive(Clone, Copy, Debug, PartialEq, Eq, Structural)]
pub enum ProjectStatus {
    Fundraising,
    Active,
    Expired,
    Refunding,
}

/// Immutable configuration supplied when a project is initialized.
#[derive(Clone, Copy, Debug, PartialEq, Eq, Structural)]
pub struct ProjectConfig {
    pub total_supply: u64,
    pub min_raise: u64,
    pub max_raise: u64,
    pub min_investment: u64,
    pub max_investment: u64,
    /// How long after the fundraising window the project runs before claim
    /// tokens may be redeemed.
    pub duration: i64,
}

/// The sum of a sequence of accepted investment amounts.
pub open spec fn sum_amounts(s: Seq<u64>) -> int
    decreases s.len(),
{
    if s.len() == 0 {
        0
    } else {
        sum_amounts(s.drop_last()) + s.last()
    }
}

/// One project's record: configuration, schedule, running totals, phase.
pub struct ProjectState {
    /// The identity under which the hosting ledger stores this record.
    pub key: AccountId,
    /// The owning identity; the only caller allowed to pause, unpause, or
    /// update the redemption price.
    pub authority: AccountId,
    /// The claim-token mint tied to this project.
    pub project_token_mint: AccountId,
    pub total_supply: u64,
    /// Price fixed at initialization; claim tokens minted per unit invested.
    pub initial_pi_price: u64,
    /// Price applied at redemption; updated by the authority.
    pub current_pi_price: u64,
    pub start_time: i64,
    pub fundraise_end_time: i64,
    pub expiration_time: i64,
    pub min_raise: u64,
    pub max_raise: u64,
    pub min_investment: u64,
    pub max_investment: u64,
    /// Number of accepted investments.
    pub total_investors: u64,
    /// Sum of accepted investment amounts; never exceeds `max_raise`.
    pub total_investment: u64,
    /// Liquidity share of a successful raise; zero until finalization.
    pub liquidity_amount: u64,
    /// Treasury share of a successful raise; zero until finalization.
    pub investment_amount: u64,
    pub invite_only: bool,
    /// Compared verbatim against the code supplied with each investment.
    pub invite_code: String,
    pub refunds_enabled: bool,
    /// Administrative kill-switch, independent of the phase: while set, every
    /// capital-moving operation is rejected.
    pub is_paused: bool,
    pub status: ProjectStatus,
    /// Investors whose refund was already authorized, each at most once.
    pub refund_claimed: Vec<AccountId>,
    /// The accepted investment amounts, in order.
    pub invested: Ghost<Seq<u64>>,
}

impl ProjectState {
    /// Well-formedness: holds of every reachable project record.
    pub open spec fn wf(self) -> bool {
        &&& self.min_raise <= self.max_raise
        &&& self.min_investment <= self.max_investment
        &&& self.total_investment <= self.max_raise
        &&& self.total_investment == sum_amounts(self.invested@)
        &&& self.total_investors == self.invested@.len()
        &&& (self.refunds_enabled <==> self.status == ProjectStatus::Refunding)
        &&& (self.status == ProjectStatus::Fundraising ==> self.liquidity_amount == 0
            && self.investment_amount == 0 && self.refund_claimed@.len() == 0)
        &&& (self.status == ProjectStatus::Active ==> self.liquidity_amount
            + self.investment_amount == self.total_investment && self.liquidity_amount
            == self.total_investment * (LIQUIDITY_SHARE_PERCENT as int) / 100)
        &&& self.refund_claimed@.no_duplicates()
    }

    /// An investment's invite gate: open projects admit everyone, invite-only
    /// projects exactly the callers who present the recorded code.
    pub open spec fn invite_ok(self, invite_code: Option<String>) -> bool {
        self.invite_only ==> (invite_code matches Some(c) && c@ == self.invite_code@)
    }

    /// Creates a project in the `Fundraising` phase with zeroed totals, a
    /// seven-day fundraising window from `now`, and `config.duration` more
    /// until expiration. Fails on a contradictory configuration, or when the
    /// schedule overflows the clock's range.
    pub fn initialize_project(
        key: AccountId,
        authority: AccountId,
        project_token_mint: AccountId,
        config: ProjectConfig,
        initial_pi_price: u64,
        invite_code: Option<String>,
        now: i64,
    ) -> (r: Result<ProjectState, PiDaoError>)
        ensures
            config.min_raise > config.max_raise || config.min_investment > config.max_investment
                ==> r == Err::<ProjectState, PiDaoError>(PiDaoError::InvalidConfig),
            r matches Ok(p) ==> {
                &&& p.wf()
                &&& p.key == key
                &&& p.authority == authority
                &&& p.project_token_mint == project_token_mint
                &&& p.total_supply == config.total_supply
                &&& p.initial_pi_price == initial_pi_price
                &&& p.current_pi_price == initial_pi_price
                &&& p.start_time == now
                &&& p.fundraise_end_time == now + FUNDRAISE_WINDOW
                &&& p.expiration_time == now + FUNDRAISE_WINDOW + config.duration
                &&& p.min_raise == config.min_raise
                &&& p.max_raise == config.max_raise
                &&& p.min_investment == config.min_investment
                &&& p.max_investment == config.max_investment
                &&& p.total_investors == 0
                &&& p.total_investment == 0
                &&& p.liquidity_amount == 0
                &&& p.investment_amount == 0
                &&& p.invite_only == invite_code is Some
                &&& p.invite_code@ == (match invite_code {
                    Some(c) => c@,
                    None => Seq::<char>::empty(),
                })
                &&& !p.refunds_enabled
                &&& !p.is_paused
                &&& p.status == ProjectStatus::Fundraising
                &&& p.refund_claimed@.len() == 0
                &&& p.invested@ == Seq::<u64>::empty()
            },
            r is Ok <==> {
                &&& config.min_raise <= config.max_raise
                &&& config.min_investment <= config.max_investment
                &&& i64::MIN <= now + FUNDRAISE_WINDOW <= i64::MAX
                &&& i64::MIN <= now + FUNDRAISE_WINDOW + config.duration <= i64::MAX
            },
            r matches Err(e) ==> e == PiDaoError::InvalidConfig || e == PiDaoError::Overflow,
    {
        if config.min_raise > config.max_raise || config.min_investment > config.max_investment {
            return Err(PiDaoError::InvalidConfig);
        }
        let fundraise_end_time: i64 = match now.checked_add(FUNDRAISE_WINDOW) {
            Some(t) => t,
            None => {
                return Err(PiDaoError::Overflow);
            },
        };
        let expiration_time: i64 = match fundraise_end_time.checked_add(config.duration) {
            Some(t) => t,
            None => {
                return Err(PiDaoError::Overflow);
            },
        };
        let invite_only: bool = invite_code.is_some();
        let stored_code: String = match invite_code {
            Some(c) => c,
            None => String::new(),
        };
        Ok(
            ProjectState {
                key,
                authority,
                project_token_mint,
                total_supply: config.total_supply,
                initial_pi_price,
                current_pi_price: initial_pi_price,
                start_time: now,
                fundraise_end_time,
                expiration_time,
                min_raise: config.min_raise,
                max_raise: config.max_raise,
                min_investment: config.min_investment,
                max_investment: config.max_investment,
                total_investors: 0,
                total_investment: 0,
                liquidity_amount: 0,
                investment_amount: 0,
                invite_only,
                invite_code: stored_code,
                refunds_enabled: false,
                is_paused: false,
                status: ProjectStatus::Fundraising,
                refund_claimed: Vec::new(),
                invested: Ghost(Seq::empty()),
            },
        )
    }

    /// Why an investment would be rejected, in the order the checks run;
    /// `None` when it is accepted.
    pub open spec fn invest_error(
        self,
        amount: u64,
        invite_code: Option<String>,
        now: i64,
    ) -> Option<PiDaoError> {
        if self.is_paused {
            Some(PiDaoError::ContractPaused)
        } else if self.status != ProjectStatus::Fundraising {
            Some(PiDaoError::InvalidProjectState)
        } else if now > self.fundraise_end_time {
            Some(PiDaoError::FundraisingEnded)
        } else if !self.invite_ok(invite_code) {
            Some(PiDaoError::InvalidInviteCode)
        } else if amount < self.min_investment || amount > self.max_investment {
            Some(PiDaoError::InvalidInvestmentAmount)
        } else if self.total_investment + amount > u64::MAX {
            Some(PiDaoError::Overflow)
        } else if self.total_investment + amount > self.max_raise {
            Some(PiDaoError::MaxRaiseExceeded)
        } else if amount * self.initial_pi_price > u64::MAX {
            Some(PiDaoError::Overflow)
        } else if self.total_investors == u64::MAX {
            Some(PiDaoError::Overflow)
        } else {
            None
        }
    }

    /// Accepts `amount` into the raise during the fundraising window: adds it
    /// to the running total, counts the investment, and reports the claim
    /// tokens to mint, `amount` times the initial price. Rejected while
    /// paused, outside the window or phase, on a failed invite check, out of
    /// the per-investment bounds, past the raise cap, or on overflow — each
    /// with its own error and no state change.
    pub fn invest(
        &mut self,
        investor: AccountId,
        amount: u64,
        invite_code: Option<String>,
        now: i64,
    ) -> (r: Result<InvestmentMade, PiDaoError>)
        requires
            old(self).wf(),
        ensures
            final(self).wf(),
            match r {
                Ok(ev) => {
                    &&& old(self).invest_error(amount, invite_code, now) is None
                    &&& *final(self) == (ProjectState {
                        total_investment: (old(self).total_investment + amount) as u64,
                        total_investors: (old(self).total_investors + 1) as u64,
                        invested: Ghost(old(self).invested@.push(amount)),
                        ..*old(self)
                    })
                    &&& ev == (InvestmentMade {
                        project: old(self).key,
                        investor,
                        amount,
                        token_amount: (amount * old(self).initial_pi_price) as u64,
                        timestamp: now,
                    })
                },
                Err(e) => {
                    &&& *final(self) == *old(self)
                    &&& old(self).invest_error(amount, invite_code, now) == Some(e)
                },
            },
    {
        if self.is_paused {
            return Err(PiDaoError::ContractPaused);
        }
        if self.status != ProjectStatus::Fundraising {
            return Err(PiDaoError::InvalidProjectState);
        }
        if now > self.fundraise_end_time {
            return Err(PiDaoError::FundraisingEnded);
        }
        if self.invite_only {
            let code_matches: bool = match &invite_code {
                Some(code) => *code == self.invite_code,
                None => false,
            };
            if !code_matches {
                return Err(PiDaoError::InvalidInviteCode);
            }
        }
        if amount < self.min_investment || amount > self.max_investment {
            return Err(PiDaoError::InvalidInvestmentAmount);
        }
        let new_total: u64 = match self.total_investment.checked_add(amount) {
            Some(t) => t,
            None => {
                return Err(PiDaoError::Overflow);
            },
        };
        if new_total > self.max_raise {
            return Err(PiDaoError::MaxRaiseExceeded);
        }
        let token_amount: u64 = match pricing::apply_price(amount, self.initial_pi_price) {
            Some(t) => t,
            None => {
                return Err(PiDaoError::Overflow);
            },
        };
        let new_investors: u64 = match self.total_investors.checked_add(1) {
            Some(t) => t,
            None => {
                return Err(PiDaoError::Overflow);
            },
        };
        let ghost previous: Seq<u64> = self.invested@;
        self.total_investment = new_total;
        self.total_investors = new_investors;
        self.invested = Ghost(previous.push(amount));
        proof {
            assert(previous.push(amount).drop_last() =~= previous);
        }
        Ok(
            InvestmentMade {
                project: self.key,
                investor,
                amount,
                token_amount,
                timestamp: now,
            },
        )
    }

    /// Why finalization would be rejected; `None` when it proceeds.
    pub open spec fn finalize_error(self, now: i64) -> Option<PiDaoError> {
        if now <= self.fundraise_end_time {
            Some(PiDaoError::FundraisingActive)
        } else if self.status != ProjectStatus::Fundraising {
            Some(PiDaoError::InvalidProjectState)
        } else if self.total_investment >= self.min_raise && self.total_investment
            * (LIQUIDITY_SHARE_PERCENT as int) > u64::MAX {
            Some(PiDaoError::Overflow)
        } else {
            None
        }
    }

    /// The one-time transition out of `Fundraising`, allowed only after the
    /// window has closed. When the minimum raise was missed the project turns
    /// `Refunding` with refunds enabled and nothing else changes; otherwise
    /// it turns `Active` and records the split: the liquidity share is a
    /// tenth of the raise, rounded down, and the treasury share is exactly
    /// the rest.
    pub fn finalize_fundraise(&mut self, now: i64) -> (r: Result<FundraiseFinalized, PiDaoError>)
        requires
            old(self).wf(),
        ensures
            final(self).wf(),
            match r {
                Ok(ev) => {
                    &&& old(self).finalize_error(now) is None
                    &&& if old(self).total_investment < old(self).min_raise {
                        &&& *final(self) == (ProjectState {
                            status: ProjectStatus::Refunding,
                            refunds_enabled: true,
                            ..*old(self)
                        })
                        &&& ev == (FundraiseFinalized {
                            project: old(self).key,
                            success: false,
                            timestamp: now,
                        })
                    } else {
                        &&& *final(self) == (ProjectState {
                            status: ProjectStatus::Active,
                            liquidity_amount: (old(self).total_investment
                                * (LIQUIDITY_SHARE_PERCENT as int) / 100) as u64,
                            investment_amount: (old(self).total_investment
                                - old(self).total_investment * (LIQUIDITY_SHARE_PERCENT as int)
                                / 100) as u64,
                            ..*old(self)
                        })
                        &&& ev == (FundraiseFinalized {
                            project: old(self).key,
                            success: true,
                            timestamp: now,
                        })
                    }
                },
                Err(e) => {
                    &&& *final(self) == *old(self)
                    &&& old(self).finalize_error(now) == Some(e)
                },
            },
    {
        if now <= self.fundraise_end_time {
            return Err(PiDaoError::FundraisingActive);
        }
        if self.status != ProjectStatus::Fundraising {
            return Err(PiDaoError::InvalidProjectState);
        }
        if self.total_investment < self.min_raise {
            self.status = ProjectStatus::Refunding;
            self.refunds_enabled = true;
            return Ok(
                FundraiseFinalized { project: self.key, success: false, timestamp: now },
            );
        }
        let scaled: u64 = match self.total_investment.checked_mul(LIQUIDITY_SHARE_PERCENT) {
            Some(v) => v,
            None => {
                return Err(PiDaoError::Overflow);
            },
        };
        let liquidity_amount: u64 = scaled / 100;
        proof {
            lemma_div_is_ordered_by_denominator(scaled as int, 10, 100);
            lemma_div_multiples_vanish(self.total_investment as int, 10);
        }
        let investment_amount: u64 = self.total_investment - liquidity_amount;
        self.liquidity_amount = liquidity_amount;
        self.investment_amount = investment_amount;
        self.status = ProjectStatus::Active;
        Ok(FundraiseFinalized { project: self.key, success: true, timestamp: now })
    }

    /// Whether a refund was already authorized for `investor`.
    pub fn has_claimed_refund(&self, investor: AccountId) -> (r: bool)
        ensures
            r == self.refund_claimed@.contains(investor),
    {
        let mut i: usize = 0;
        while i < self.refund_claimed.len()
            invariant
                i <= self.refund_claimed@.len(),
                forall|j: int| 0 <= j < i ==> self.refund_claimed@[j] != investor,
            decreases self.refund_claimed@.len() - i,
        {
            if self.refund_claimed[i] == investor {
                return true;
            }
            i += 1;
        }
        false
    }

    /// Why a refund claim would be rejected; `None` when it is authorized.
    pub open spec fn claim_refund_error(self, investor: AccountId) -> Option<PiDaoError> {
        if self.is_paused {
            Some(PiDaoError::ContractPaused)
        } else if self.status != ProjectStatus::Refunding {
            Some(PiDaoError::RefundsNotEnabled)
        } else if self.refund_claimed@.contains(investor) {
            Some(PiDaoError::RefundAlreadyClaimed)
        } else {
            None
        }
    }

    /// Authorizes a refund for `investor`, at most once per investor and only
    /// while the project is refunding. Settlement of the refunded capital is
    /// the payment collaborator's responsibility; this ledger records the
    /// authorization and reports the event.
    pub fn claim_refund(&mut self, investor: AccountId, now: i64) -> (r: Result<
        RefundClaimed,
        PiDaoError,
    >)
        requires
            old(self).wf(),
        ensures
            final(self).wf(),
            match r {
                Ok(ev) => {
                    &&& old(self).claim_refund_error(investor) is None
                    &&& final(self).refund_claimed@ == old(self).refund_claimed@.push(investor)
                    &&& *final(self) == (ProjectState {
                        refund_claimed: final(self).refund_claimed,
                        ..*old(self)
                    })
                    &&& ev == (RefundClaimed {
                        project: old(self).key,
                        investor,
                        timestamp: now,
                    })
                },
                Err(e) => {
                    &&& *final(self) == *old(self)
                    &&& old(self).claim_refund_error(investor) == Some(e)
                },
            },
    {
        if self.is_paused {
            return Err(PiDaoError::ContractPaused);
        }
        if self.status != ProjectStatus::Refunding {
            return Err(PiDaoError::RefundsNotEnabled);
        }
        if self.has_claimed_refund(investor) {
            return Err(PiDaoError::RefundAlreadyClaimed);
        }
        let ghost previous: Seq<AccountId> = self.refund_claimed@;
        self.refund_claimed.push(investor);
        proof {
            assert forall|i: int, j: int|
                0 <= i < j < self.refund_claimed@.len() implies self.refund_claimed@[i]
                != self.refund_claimed@[j] by {
                if j < previous.len() as int {
                    assert(previous.no_duplicates());
                } else {
                    assert(self.refund_claimed@[j] == investor);
                    assert(!previous.contains(investor));
                }
            }
        }
        Ok(RefundClaimed { project: self.key, investor, timestamp: now })
    }

    /// Why a redemption would be rejected; `None` when it proceeds.
    pub open spec fn redeem_error(
        self,
        token_balance: u64,
        amount: u64,
        now: i64,
    ) -> Option<PiDaoError> {
        if self.is_paused {
            Some(PiDaoError::ContractPaused)
        } else if now <= self.expiration_time {
            Some(PiDaoError::ProjectNotExpired)
        } else if self.status != ProjectStatus::Active {
            Some(PiDaoError::InvalidProjectState)
        } else if amount * self.current_pi_price > u64::MAX {
            Some(PiDaoError::Overflow)
        } else if token_balance < amount {
            Some(PiDaoError::InsufficientFunds)
        } else {
            None
        }
    }

    /// Values `amount` claim tokens at the current price once the project is
    /// active and expired. `token_balance` is the caller's claim-token
    /// balance as the token collaborator reports it; holding fewer than
    /// `amount` tokens is an insufficient-funds failure. The event tells the
    /// collaborator to burn `amount` tokens and pay out the redemption value;
    /// the record itself does not change.
    pub fn redeem_tokens(
        &self,
        investor: AccountId,
        token_balance: u64,
        amount: u64,
        now: i64,
    ) -> (r: Result<TokensRedeemed, PiDaoError>)
        requires
            self.wf(),
        ensures
            match r {
                Ok(ev) => {
                    &&& self.redeem_error(token_balance, amount, now) is None
                    &&& ev == (TokensRedeemed {
                        project: self.key,
                        investor,
                        amount,
                        redemption_amount: (amount * self.current_pi_price) as u64,
                        timestamp: now,
                    })
                },
                Err(e) => self.redeem_error(token_balance, amount, now) == Some(e),
            },
    {
        if self.is_paused {
            return Err(PiDaoError::ContractPaused);
        }
        if now <= self.expiration_time {
            return Err(PiDaoError::ProjectNotExpired);
        }
        if self.status != ProjectStatus::Active {
            return Err(PiDaoError::InvalidProjectState);
        }
        let redemption_amount: u64 = match pricing::apply_price(amount, self.current_pi_price) {
            Some(v) => v,
            None => {
                return Err(PiDaoError::Overflow);
            },
        };
        if token_balance < amount {
            return Err(PiDaoError::InsufficientFunds);
        }
        Ok(
            TokensRedeemed {
                project: self.key,
                investor,
                amount,
                redemption_amount,
                timestamp: now,
            },
        )
    }

    /// Halts all capital-moving operations. Only the recorded authority may
    /// pause; any other caller is rejected with no state change.
    pub fn pause_contract(&mut self, admin: AccountId, now: i64) -> (r: Result<
        ContractPaused,
        PiDaoError,
    >)
        requires
            old(self).wf(),
        ensures
            final(self).wf(),
            match r {
                Ok(ev) => {
                    &&& admin == old(self).authority
                    &&& *final(self) == (ProjectState { is_paused: true, ..*old(self) })
                    &&& ev == (ContractPaused { project: old(self).key, admin, timestamp: now })
                },
                Err(e) => {
                    &&& *final(self) == *old(self)
                    &&& e == PiDaoError::UnauthorizedAccess
                    &&& admin != old(self).authority
                },
            },
    {
        if admin != self.authority {
            return Err(PiDaoError::UnauthorizedAccess);
        }
        self.is_paused = true;
        Ok(ContractPaused { project: self.key, admin, timestamp: now })
    }

    /// Lifts the administrative halt. Only the recorded authority may
    /// unpause; any other caller is rejected with no state change.
    pub fn unpause_contract(&mut self, admin: AccountId, now: i64) -> (r: Result<
        ContractUnpaused,
        PiDaoError,
    >)
        requires
            old(self).wf(),
        ensures
            final(self).wf(),
            match r {
                Ok(ev) => {
                    &&& admin == old(self).authority
                    &&& *final(self) == (ProjectState { is_paused: false, ..*old(self) })
                    &&& ev == (ContractUnpaused { project: old(self).key, admin, timestamp: now })
                },
                Err(e) => {
                    &&& *final(self) == *old(self)
                    &&& e == PiDaoError::UnauthorizedAccess
                    &&& admin != old(self).authority
                },
            },
    {
        if admin != self.authority {
            return Err(PiDaoError::UnauthorizedAccess);
        }
        self.is_paused = false;
        Ok(ContractUnpaused { project: self.key, admin, timestamp: now })
    }

    /// Sets the price applied at redemption. The price itself comes from an
    /// external price source; only the recorded authority may record it.
    pub fn update_price(&mut self, admin: AccountId, new_price: u64) -> (r: Result<
        (),
        PiDaoError,
    >)
        requires
            old(self).wf(),
        ensures
            final(self).wf(),
            match r {
                Ok(_) => {
                    &&& admin == old(self).authority
                    &&& *final(self) == (ProjectState {
                        current_pi_price: new_price,
                        ..*old(self)
                    })
                },
                Err(e) => {
                    &&& *final(self) == *old(self)
                    &&& e == PiDaoError::UnauthorizedAccess
                    &&& admin != old(self).authority
                },
            },
    {
        if admin != self.authority {
            return Err(PiDaoError::UnauthorizedAccess);
        }
        self.current_pi_price = new_price;
        Ok(())
    }
}

/// For every reachable project record, the total investment never exceeds
/// the raise cap and equals the sum of the accepted investment amounts:
/// initialization establishes `wf` and every operation preserves it.
pub proof fn lemma_investment_totals(p: ProjectState)
    requires
        p.wf(),
    ensures
        p.total_investment <= p.max_raise,
        p.total_investment == sum_amounts(p.invested@),
        p.total_investors == p.invested@.len(),
{
}

/// After a successful finalization the recorded split is exact: the two
/// shares add back up to the raise, and the liquidity share is a tenth of
/// it, rounded down.
pub proof fn lemma_success_split(p: ProjectState)
    requires
        p.wf(),
        p.status == ProjectStatus::Active,
    ensures
        p.liquidity_amount + p.investment_amount == p.total_investment,
        p.liquidity_amount == p.total_investment * (LIQUIDITY_SHARE_PERCENT as int) / 100,
{
}

} // verus!
