//! The contract's environment as the logic sees it: the ledger time, the
//! contract's storage entries, and the events the contract has published.

use vstd::prelude::*;
use crate::address::{address_views, AddrMap, Address};
use crate::types::{
    AccountState, GuardianConfig, GuardianConfigView, Policy, PolicyView, RecoveryProposal,
    RecoveryProposalView, StepUpReason, VelocityWindow,
};

verus! {

/// An event that the contract publishes.
#[derive(Debug, PartialEq, Eq)]
pub enum ContractEvent {
    PolicySet {
        wallet: Address,
        max_no_stepup: i128,
        daily_velocity_cap: i128,
        hourly_velocity_cap: i128,
        new_recipient_requires_stepup: bool,
        trust_decay_seconds: u64,
    },
    RecipientTrusted { wallet: Address, recipient: Address },
    RecipientUntrusted { wallet: Address, recipient: Address },
    AddressFlagged { admin: Address, address: Address },
    AddressUnflagged { admin: Address, address: Address },
    GuardiansSet { wallet: Address, guardians: Vec<Address>, threshold: u32 },
    RecoveryProposed { wallet: Address, proposer: Address, target_state: AccountState },
    RecoveryApproved { wallet: Address, guardian: Address, approvals_count: u32 },
    RecoveryExecuted { wallet: Address, target_state: AccountState },
    RecoveryCancelled { wallet: Address, proposer: Address, target_state: AccountState },
    EvaluationAllowed { wallet: Address, recipient: Address, amount: i128 },
    StepupRequired { wallet: Address, recipient: Address, amount: i128, reason: StepUpReason },
}

/// An event as the contracts speak of it.
pub enum ContractEventView {
    PolicySet {
        wallet: Seq<u8>,
        max_no_stepup: i128,
        daily_velocity_cap: i128,
        hourly_velocity_cap: i128,
        new_recipient_requires_stepup: bool,
        trust_decay_seconds: u64,
    },
    RecipientTrusted { wallet: Seq<u8>, recipient: Seq<u8> },
    RecipientUntrusted { wallet: Seq<u8>, recipient: Seq<u8> },
    AddressFlagged { admin: Seq<u8>, address: Seq<u8> },
    AddressUnflagged { admin: Seq<u8>, address: Seq<u8> },
    GuardiansSet { wallet: Seq<u8>, guardians: Seq<Seq<u8>>, threshold: u32 },
    RecoveryProposed { wallet: Seq<u8>, proposer: Seq<u8>, target_state: AccountState },
    RecoveryApproved { wallet: Seq<u8>, guardian: Seq<u8>, approvals_count: u32 },
    RecoveryExecuted { wallet: Seq<u8>, target_state: AccountState },
    RecoveryCancelled { wallet: Seq<u8>, proposer: Seq<u8>, target_state: AccountState },
    EvaluationAllowed { wallet: Seq<u8>, recipient: Seq<u8>, amount: i128 },
    StepupRequired { wallet: Seq<u8>, recipient: Seq<u8>, amount: i128, reason: StepUpReason },
}

impl View for ContractEvent {
    type V = ContractEventView;

    open spec fn view(&self) -> ContractEventView {
        match self {
            ContractEvent::PolicySet {
                wallet,
                max_no_stepup,
                daily_velocity_cap,
                hourly_velocity_cap,
                new_recipient_requires_stepup,
                trust_decay_seconds,
            } => ContractEventView::PolicySet {
                wallet: wallet@,
                max_no_stepup: *max_no_stepup,
                daily_velocity_cap: *daily_velocity_cap,
                hourly_velocity_cap: *hourly_velocity_cap,
                new_recipient_requires_stepup: *new_recipient_requires_stepup,
                trust_decay_seconds: *trust_decay_seconds,
            },
            ContractEvent::RecipientTrusted { wallet, recipient } => ContractEventView::RecipientTrusted {
                wallet: wallet@,
                recipient: recipient@,
            },
            ContractEvent::RecipientUntrusted {
                wallet,
                recipient,
            } => ContractEventView::RecipientUntrusted { wallet: wallet@, recipient: recipient@ },
            ContractEvent::AddressFlagged { admin, address } => ContractEventView::AddressFlagged {
                admin: admin@,
                address: address@,
            },
            ContractEvent::AddressUnflagged { admin, address } => ContractEventView::AddressUnflagged {
                admin: admin@,
                address: address@,
            },
            ContractEvent::GuardiansSet { wallet, guardians, threshold } => ContractEventView::GuardiansSet {
                wallet: wallet@,
                guardians: address_views(guardians@),
                threshold: *threshold,
            },
            ContractEvent::RecoveryProposed {
                wallet,
                proposer,
                target_state,
            } => ContractEventView::RecoveryProposed {
                wallet: wallet@,
                proposer: proposer@,
                target_state: *target_state,
            },
            ContractEvent::RecoveryApproved {
                wallet,
                guardian,
                approvals_count,
            } => ContractEventView::RecoveryApproved {
                wallet: wallet@,
                guardian: guardian@,
                approvals_count: *approvals_count,
            },
            ContractEvent::RecoveryExecuted { wallet, target_state } => ContractEventView::RecoveryExecuted {
                wallet: wallet@,
                target_state: *target_state,
            },
            ContractEvent::RecoveryCancelled {
                wallet,
                proposer,
                target_state,
            } => ContractEventView::RecoveryCancelled {
                wallet: wallet@,
                proposer: proposer@,
                target_state: *target_state,
            },
            ContractEvent::EvaluationAllowed {
                wallet,
                recipient,
                amount,
            } => ContractEventView::EvaluationAllowed {
                wallet: wallet@,
                recipient: recipient@,
                amount: *amount,
            },
            ContractEvent::StepupRequired {
                wallet,
                recipient,
                amount,
                reason,
            } => ContractEventView::StepupRequired {
                wallet: wallet@,
                recipient: recipient@,
                amount: *amount,
                reason: *reason,
            },
        }
    }
}

/// The contract's environment: the current ledger time, every storage entry
/// of the contract, and the events published so far.
#[derive(Debug)]
pub struct Env {
    /// The ledger timestamp, in seconds.
    pub timestamp: u64,
    pub admin: Option<Address>,
    pub reference_asset: Option<Address>,
    pub policies: AddrMap<Policy>,
    pub daily_velocity: AddrMap<VelocityWindow>,
    pub hourly_velocity: AddrMap<VelocityWindow>,
    /// Present with `true` means flagged; absent means not flagged.
    pub flagged: AddrMap<bool>,
    /// Absent means `AccountState::Normal`.
    pub account_states: AddrMap<AccountState>,
    pub guardian_configs: AddrMap<GuardianConfig>,
    /// At most one pending proposal per wallet; absent means none pending.
    pub recovery_proposals: AddrMap<RecoveryProposal>,
    pub events: Vec<ContractEvent>,
}

/// The environment as the contracts speak of it.
pub struct EnvView {
    pub timestamp: u64,
    pub admin: Option<Seq<u8>>,
    pub reference_asset: Option<Seq<u8>>,
    pub policies: Map<Seq<u8>, PolicyView>,
    pub daily_velocity: Map<Seq<u8>, VelocityWindow>,
    pub hourly_velocity: Map<Seq<u8>, VelocityWindow>,
    pub flagged: Map<Seq<u8>, bool>,
    pub account_states: Map<Seq<u8>, AccountState>,
    pub guardian_configs: Map<Seq<u8>, GuardianConfigView>,
    pub recovery_proposals: Map<Seq<u8>, RecoveryProposalView>,
    pub events: Seq<ContractEventView>,
}

/// The account an optional address denotes.
pub open spec fn opt_address_view(a: Option<Address>) -> Option<Seq<u8>> {
    match a {
        Some(a) => Some(a@),
        None => None,
    }
}

/// The views of a sequence of events.
pub open spec fn event_views(s: Seq<ContractEvent>) -> Seq<ContractEventView> {
    s.map_values(|e: ContractEvent| e@)
}

impl View for Env {
    type V = EnvView;

    open spec fn view(&self) -> EnvView {
        EnvView {
            timestamp: self.timestamp,
            admin: opt_address_view(self.admin),
            reference_asset: opt_address_view(self.reference_asset),
            policies: self.policies@,
            daily_velocity: self.daily_velocity@,
            hourly_velocity: self.hourly_velocity@,
            flagged: self.flagged@,
            account_states: self.account_states@,
            guardian_configs: self.guardian_configs@,
            recovery_proposals: self.recovery_proposals@,
            events: event_views(self.events@),
        }
    }
}

impl EnvView {
    /// Whether `a` is in the flagged-address registry.
    pub open spec fn is_flagged(self, a: Seq<u8>) -> bool {
        self.flagged.contains_key(a) && self.flagged[a]
    }

    /// The state of `w`'s account; an account with no entry is `Normal`.
    pub open spec fn account_state(self, w: Seq<u8>) -> AccountState {
        if self.account_states.contains_key(w) {
            self.account_states[w]
        } else {
            AccountState::Normal
        }
    }

    /// `w`'s stored daily window, zeroed when it has none.
    pub open spec fn daily_window(self, w: Seq<u8>) -> VelocityWindow {
        if self.daily_velocity.contains_key(w) {
            self.daily_velocity[w]
        } else {
            VelocityWindow::spec_zeroed()
        }
    }

    /// `w`'s stored hourly window, zeroed when it has none.
    pub open spec fn hourly_window(self, w: Seq<u8>) -> VelocityWindow {
        if self.hourly_velocity.contains_key(w) {
            self.hourly_velocity[w]
        } else {
            VelocityWindow::spec_zeroed()
        }
    }

    /// `self` with one more event published.
    pub open spec fn publish(self, e: ContractEventView) -> EnvView {
        EnvView { events: self.events.push(e), ..self }
    }
}

impl Env {
    /// An environment at ledger time `timestamp` whose storage is empty and
    /// which has published nothing.
    pub fn new(timestamp: u64) -> (r: Env)
        ensures
            r@ == (EnvView {
                timestamp,
                admin: None,
                reference_asset: None,
                policies: Map::empty(),
                daily_velocity: Map::empty(),
                hourly_velocity: Map::empty(),
                flagged: Map::empty(),
                account_states: Map::empty(),
                guardian_configs: Map::empty(),
                recovery_proposals: Map::empty(),
                events: Seq::empty(),
            }),
    {
        let r = Env {
            timestamp,
            admin: None,
            reference_asset: None,
            policies: AddrMap::new(),
            daily_velocity: AddrMap::new(),
            hourly_velocity: AddrMap::new(),
            flagged: AddrMap::new(),
            account_states: AddrMap::new(),
            guardian_configs: AddrMap::new(),
            recovery_proposals: AddrMap::new(),
            events: Vec::new(),
        };
        assert(event_views(r.events@) =~= Seq::<ContractEventView>::empty());
        r
    }

    /// Moves the ledger time to `timestamp`.
    pub fn set_timestamp(&mut self, timestamp: u64)
        ensures
            final(self)@ == (EnvView { timestamp, ..old(self)@ }),
    {
        self.timestamp = timestamp;
    }

    /// Publishes `e`.
    pub fn publish(&mut self, e: ContractEvent)
        ensures
            final(self)@ == old(self)@.publish(e@),
    {
        let ghost ev = e@;
        self.events.push(e);
        assert(event_views(self.events@) =~= event_views(old(self).events@).push(ev));
    }
}

} // verus!
