//! The contract's data model: policies, velocity windows, decisions, account
//! states, guardian configurations and recovery proposals.

use vstd::prelude::*;
use crate::address::{address_views, clone_addresses, AddrMap, Address};

verus! {

/// The running total of one wallet's transfers within one fixed window.
#[derive(Clone, Copy, Debug, PartialEq, Eq, Structural)]
pub struct VelocityWindow {
    pub window_start: u64,
    pub cumulative_amount: i128,
    pub tx_count: u32,
}

impl View for VelocityWindow {
    type V = VelocityWindow;

    open spec fn view(&self) -> VelocityWindow {
        *self
    }
}

impl VelocityWindow {
    /// The window of a wallet that has made no transfer yet.
    pub open spec fn spec_zeroed() -> VelocityWindow {
        VelocityWindow { window_start: 0, cumulative_amount: 0, tx_count: 0 }
    }

    /// The window of a wallet that has made no transfer yet.
    pub fn zeroed() -> (r: VelocityWindow)
        ensures
            r == VelocityWindow::spec_zeroed(),
    {
        VelocityWindow { window_start: 0, cumulative_amount: 0, tx_count: 0 }
    }
}

/// How restricted an account currently is, from least to most restrictive.
#[derive(Clone, Copy, Debug, PartialEq, Eq, Structural, PartialOrd, Ord)]
pub enum AccountState {
    Normal,
    Watch,
    Restricted,
    Challenged,
    Frozen,
}

impl View for AccountState {
    type V = AccountState;

    open spec fn view(&self) -> AccountState {
        *self
    }
}

impl AccountState {
    /// The place of the state in the order `Normal < Watch < Restricted <
    /// Challenged < Frozen`.
    pub open spec fn rank(self) -> int {
        match self {
            AccountState::Normal => 0,
            AccountState::Watch => 1,
            AccountState::Restricted => 2,
            AccountState::Challenged => 3,
            AccountState::Frozen => 4,
        }
    }

    /// The place of the state in the order from least to most restrictive.
    pub fn restrictiveness(&self) -> (r: u8)
        ensures
            r as int == self.rank(),
    {
        match self {
            AccountState::Normal => 0,
            AccountState::Watch => 1,
            AccountState::Restricted => 2,
            AccountState::Challenged => 3,
            AccountState::Frozen => 4,
        }
    }
}

/// Why a transfer needs step-up confirmation.
#[derive(Clone, Copy, Debug, PartialEq, Eq, Structural)]
pub enum StepUpReason {
    AmountExceeded,
    NewRecipient,
    VelocityExceeded,
    HourlyVelocityExceeded,
    FlaggedRecipient,
}

/// The answer to a transfer that is about to happen.
#[derive(Clone, Copy, Debug, PartialEq, Eq, Structural)]
pub enum Decision {
    Allow,
    RequireStepUp(StepUpReason),
}

/// A wallet's own spending rules.
#[derive(Debug)]
pub struct Policy {
    pub owner: Address,
    /// The largest single transfer that needs no step-up.
    pub max_no_stepup: i128,
    /// The cumulative ceiling of a fixed 24-hour window.
    pub daily_velocity_cap: i128,
    /// The cumulative ceiling of a fixed 1-hour window; at most
    /// `daily_velocity_cap`.
    pub hourly_velocity_cap: i128,
    pub new_recipient_requires_stepup: bool,
    /// Recipient -> the ledger time it was last paid, or added if never paid since.
    pub trusted_recipients: AddrMap<u64>,
    /// How long a recipient stays trusted after it was last paid, in seconds.
    pub trust_decay_seconds: u64,
    pub updated_at: u64,
}

/// A policy as the contracts speak of it.
pub struct PolicyView {
    pub owner: Seq<u8>,
    pub max_no_stepup: i128,
    pub daily_velocity_cap: i128,
    pub hourly_velocity_cap: i128,
    pub new_recipient_requires_stepup: bool,
    pub trusted_recipients: Map<Seq<u8>, u64>,
    pub trust_decay_seconds: u64,
    pub updated_at: u64,
}

impl View for Policy {
    type V = PolicyView;

    open spec fn view(&self) -> PolicyView {
        PolicyView {
            owner: self.owner@,
            max_no_stepup: self.max_no_stepup,
            daily_velocity_cap: self.daily_velocity_cap,
            hourly_velocity_cap: self.hourly_velocity_cap,
            new_recipient_requires_stepup: self.new_recipient_requires_stepup,
            trusted_recipients: self.trusted_recipients@,
            trust_decay_seconds: self.trust_decay_seconds,
            updated_at: self.updated_at,
        }
    }
}

impl Clone for Policy {
    fn clone(&self) -> (r: Self)
        ensures
            r@ == self@,
    {
        Policy {
            owner: self.owner.clone(),
            max_no_stepup: self.max_no_stepup,
            daily_velocity_cap: self.daily_velocity_cap,
            hourly_velocity_cap: self.hourly_velocity_cap,
            new_recipient_requires_stepup: self.new_recipient_requires_stepup,
            trusted_recipients: self.trusted_recipients.clone(),
            trust_decay_seconds: self.trust_decay_seconds,
            updated_at: self.updated_at,
        }
    }
}

/// The guardians a wallet has named, and how many of them must approve a recovery.
#[derive(Debug)]
pub struct GuardianConfig {
    /// At most seven guardians.
    pub guardians: Vec<Address>,
    /// Between one and the number of guardians.
    pub threshold: u32,
}

/// A guardian configuration as the contracts speak of it.
pub struct GuardianConfigView {
    pub guardians: Seq<Seq<u8>>,
    pub threshold: u32,
}

impl View for GuardianConfig {
    type V = GuardianConfigView;

    open spec fn view(&self) -> GuardianConfigView {
        GuardianConfigView { guardians: address_views(self.guardians@), threshold: self.threshold }
    }
}

impl Clone for GuardianConfig {
    fn clone(&self) -> (r: Self)
        ensures
            r@ == self@,
    {
        GuardianConfig { guardians: clone_addresses(&self.guardians), threshold: self.threshold }
    }
}

/// A pending request of a wallet's guardians to move the account to a less
/// restrictive state.
#[derive(Debug)]
pub struct RecoveryProposal {
    pub proposer: Address,
    pub target_state: AccountState,
    /// The guardians that have approved, the proposer first.
    pub approvals: Vec<Address>,
    pub proposed_at: u64,
    pub timelock_seconds: u64,
}

/// A recovery proposal as the contracts speak of it.
pub struct RecoveryProposalView {
    pub proposer: Seq<u8>,
    pub target_state: AccountState,
    pub approvals: Seq<Seq<u8>>,
    pub proposed_at: u64,
    pub timelock_seconds: u64,
}

impl View for RecoveryProposal {
    type V = RecoveryProposalView;

    open spec fn view(&self) -> RecoveryProposalView {
        RecoveryProposalView {
            proposer: self.proposer@,
            target_state: self.target_state,
            approvals: address_views(self.approvals@),
            proposed_at: self.proposed_at,
            timelock_seconds: self.timelock_seconds,
        }
    }
}

impl Clone for RecoveryProposal {
    fn clone(&self) -> (r: Self)
        ensures
            r@ == self@,
    {
        RecoveryProposal {
            proposer: self.proposer.clone(),
            target_state: self.target_state,
            approvals: clone_addresses(&self.approvals),
            proposed_at: self.proposed_at,
            timelock_seconds: self.timelock_seconds,
        }
    }
}

} // verus!
