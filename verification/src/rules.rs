//! The rules of the contract, stated over views: when a policy is valid, how
//! the fixed velocity windows reset, when a recipient counts as trusted, and
//! which decision a transfer gets.

use vstd::prelude::*;
use crate::env::{ContractEventView, EnvView};
use crate::errors::WardenError;
use crate::types::{
    AccountState, Decision, GuardianConfigView, PolicyView, RecoveryProposalView, StepUpReason,
    VelocityWindow,
};

verus! {

/// The length of the daily velocity window, in seconds.
pub const SECONDS_PER_DAY: u64 = 86400;

/// The length of the hourly velocity window, in seconds.
pub const SECONDS_PER_HOUR: u64 = 3600;

/// How long a recovery proposal waits before it can be executed, in seconds
/// (48 hours). It is the same for every proposal, so that no proposer can
/// choose their own.
pub const RECOVERY_TIMELOCK_SECONDS: u64 = 172800;

/// The largest number of guardians a wallet can name.
pub const MAX_GUARDIANS: usize = 7;

/// Whether `set_policy` accepts these limits: a non-negative per-transfer
/// ceiling no larger than the daily cap, and an hourly cap between zero and
/// the daily cap.
pub open spec fn policy_params_valid(
    max_no_stepup: i128,
    daily_velocity_cap: i128,
    hourly_velocity_cap: i128,
) -> bool {
    &&& 0 <= max_no_stepup
    &&& max_no_stepup <= daily_velocity_cap
    &&& 0 <= hourly_velocity_cap
    &&& hourly_velocity_cap <= daily_velocity_cap
}

/// The policy that `set_policy` stores: the five configurable fields replaced
/// and the time of the change recorded; owner and trusted recipients kept from
/// an existing policy, or the owner set to the wallet and no trusted recipient
/// for a new one.
pub open spec fn configured_policy(
    existing: Option<PolicyView>,
    wallet: Seq<u8>,
    max_no_stepup: i128,
    daily_velocity_cap: i128,
    new_recipient_requires_stepup: bool,
    hourly_velocity_cap: i128,
    trust_decay_seconds: u64,
    now: u64,
) -> PolicyView {
    match existing {
        Some(p) => PolicyView {
            max_no_stepup,
            daily_velocity_cap,
            hourly_velocity_cap,
            new_recipient_requires_stepup,
            trust_decay_seconds,
            updated_at: now,
            ..p
        },
        None => PolicyView {
            owner: wallet,
            max_no_stepup,
            daily_velocity_cap,
            hourly_velocity_cap,
            new_recipient_requires_stepup,
            trusted_recipients: Map::empty(),
            trust_decay_seconds,
            updated_at: now,
        },
    }
}

/// The window that applies at time `now` to a stored window of length
/// `period`: a fresh window starting now once the period has elapsed since
/// the stored window started, the stored window otherwise.
pub open spec fn effective_window(stored: VelocityWindow, now: u64, period: u64) -> VelocityWindow {
    if now - stored.window_start >= period {
        VelocityWindow { window_start: now, cumulative_amount: 0, tx_count: 0 }
    } else {
        stored
    }
}

/// The window after one more transfer of `amount`.
pub open spec fn accumulate(w: VelocityWindow, amount: i128) -> VelocityWindow {
    VelocityWindow {
        window_start: w.window_start,
        cumulative_amount: (w.cumulative_amount + amount) as i128,
        tx_count: (w.tx_count + 1) as u32,
    }
}

/// Whether `recipient` counts as trusted at time `now`: it is among the
/// policy's trusted recipients, and was last paid no more than
/// `trust_decay_seconds` ago.
pub open spec fn actively_trusted(p: PolicyView, recipient: Seq<u8>, now: u64) -> bool {
    &&& p.trusted_recipients.contains_key(recipient)
    &&& now - p.trusted_recipients[recipient] <= p.trust_decay_seconds
}

/// The decision for a transfer of `amount` to `recipient`, given the windows
/// that apply now: the first of these checks that matches, in this order,
/// gives the step-up reason — flagged recipient, new or no longer trusted
/// recipient (where the policy asks for it), amount over the per-transfer
/// ceiling, hourly total over the hourly cap, daily total over the daily cap;
/// and when none matches the transfer is allowed.
pub open spec fn decide(
    p: PolicyView,
    recipient_flagged: bool,
    recipient: Seq<u8>,
    amount: i128,
    now: u64,
    daily: VelocityWindow,
    hourly: VelocityWindow,
) -> Decision {
    if recipient_flagged {
        Decision::RequireStepUp(StepUpReason::FlaggedRecipient)
    } else if p.new_recipient_requires_stepup && !actively_trusted(p, recipient, now) {
        Decision::RequireStepUp(StepUpReason::NewRecipient)
    } else if amount > p.max_no_stepup {
        Decision::RequireStepUp(StepUpReason::AmountExceeded)
    } else if hourly.cumulative_amount + amount > p.hourly_velocity_cap {
        Decision::RequireStepUp(StepUpReason::HourlyVelocityExceeded)
    } else if daily.cumulative_amount + amount > p.daily_velocity_cap {
        Decision::RequireStepUp(StepUpReason::VelocityExceeded)
    } else {
        Decision::Allow
    }
}

impl EnvView {
    /// The daily window that applies to `w` now.
    pub open spec fn current_daily(self, w: Seq<u8>) -> VelocityWindow {
        effective_window(self.daily_window(w), self.timestamp, SECONDS_PER_DAY)
    }

    /// The hourly window that applies to `w` now.
    pub open spec fn current_hourly(self, w: Seq<u8>) -> VelocityWindow {
        effective_window(self.hourly_window(w), self.timestamp, SECONDS_PER_HOUR)
    }

    /// The decision that `evaluate` gives now for a transfer of `amount` from
    /// `wallet`, which has a policy, to `recipient`.
    pub open spec fn evaluation(self, wallet: Seq<u8>, recipient: Seq<u8>, amount: i128) -> Decision {
        decide(
            self.policies[wallet],
            self.is_flagged(recipient),
            recipient,
            amount,
            self.timestamp,
            self.current_daily(wallet),
            self.current_hourly(wallet),
        )
    }

    /// Whether evaluating a transfer of `amount` from `wallet` stays within
    /// the machine's integers: both stored windows started no later than now,
    /// and neither window's total nor count overflows when the transfer is
    /// added.
    pub open spec fn evaluation_in_range(self, wallet: Seq<u8>, amount: i128) -> bool {
        let d = self.current_daily(wallet);
        let h = self.current_hourly(wallet);
        &&& self.daily_window(wallet).window_start <= self.timestamp
        &&& self.hourly_window(wallet).window_start <= self.timestamp
        &&& d.cumulative_amount + amount <= i128::MAX
        &&& h.cumulative_amount + amount <= i128::MAX
        &&& d.tx_count < u32::MAX
        &&& h.tx_count < u32::MAX
    }

    /// The state after `evaluate` accepts a transfer of `amount` from
    /// `wallet` to `recipient`: both windows count the transfer whatever the
    /// decision, a recipient already among the trusted ones has its last
    /// payment time refreshed, and the decision's event is published.
    pub open spec fn after_evaluation(self, wallet: Seq<u8>, recipient: Seq<u8>, amount: i128) -> EnvView {
        let p = self.policies[wallet];
        let decision = self.evaluation(wallet, recipient, amount);
        let event = match decision {
            Decision::Allow => ContractEventView::EvaluationAllowed { wallet, recipient, amount },
            Decision::RequireStepUp(reason) => ContractEventView::StepupRequired {
                wallet,
                recipient,
                amount,
                reason,
            },
        };
        EnvView {
            policies: if p.trusted_recipients.contains_key(recipient) {
                self.policies.insert(
                    wallet,
                    PolicyView {
                        trusted_recipients: p.trusted_recipients.insert(recipient, self.timestamp),
                        ..p
                    },
                )
            } else {
                self.policies
            },
            daily_velocity: self.daily_velocity.insert(
                wallet,
                accumulate(self.current_daily(wallet), amount),
            ),
            hourly_velocity: self.hourly_velocity.insert(
                wallet,
                accumulate(self.current_hourly(wallet), amount),
            ),
            events: self.events.push(event),
            ..self
        }
    }
}


/// Whether a wallet can name `n` guardians with this threshold: at most
/// seven guardians, and a threshold between one and their number.
pub open spec fn guardian_config_valid(n: int, threshold: u32) -> bool {
    &&& n <= MAX_GUARDIANS
    &&& 1 <= threshold
    &&& threshold <= n
}

impl EnvView {
    /// The state after `set_policy` accepts its arguments.
    pub open spec fn after_set_policy(
        self,
        wallet: Seq<u8>,
        max_no_stepup: i128,
        daily_velocity_cap: i128,
        new_recipient_requires_stepup: bool,
        hourly_velocity_cap: i128,
        trust_decay_seconds: u64,
    ) -> EnvView {
        EnvView {
            policies: self.policies.insert(
                wallet,
                configured_policy(
                    self.policies.get(wallet),
                    wallet,
                    max_no_stepup,
                    daily_velocity_cap,
                    new_recipient_requires_stepup,
                    hourly_velocity_cap,
                    trust_decay_seconds,
                    self.timestamp,
                ),
            ),
            ..self
        }.publish(
            ContractEventView::PolicySet {
                wallet,
                max_no_stepup,
                daily_velocity_cap,
                hourly_velocity_cap,
                new_recipient_requires_stepup,
                trust_decay_seconds,
            },
        )
    }

    /// Why `add_trusted_recipient` refuses, if it does.
    pub open spec fn add_trusted_recipient_error(self, wallet: Seq<u8>, recipient: Seq<u8>) -> Option<
        WardenError,
    > {
        if !self.policies.contains_key(wallet) {
            Some(WardenError::PolicyNotFound)
        } else if self.policies[wallet].trusted_recipients.contains_key(recipient) {
            Some(WardenError::RecipientAlreadyTrusted)
        } else {
            None
        }
    }

    /// The state after `add_trusted_recipient` accepts: the recipient is
    /// trusted as paid now, and the policy records the change.
    pub open spec fn after_add_trusted_recipient(self, wallet: Seq<u8>, recipient: Seq<u8>) -> EnvView {
        let p = self.policies[wallet];
        EnvView {
            policies: self.policies.insert(
                wallet,
                PolicyView {
                    trusted_recipients: p.trusted_recipients.insert(recipient, self.timestamp),
                    updated_at: self.timestamp,
                    ..p
                },
            ),
            ..self
        }.publish(ContractEventView::RecipientTrusted { wallet, recipient })
    }

    /// Why `remove_trusted_recipient` refuses, if it does.
    pub open spec fn remove_trusted_recipient_error(self, wallet: Seq<u8>, recipient: Seq<u8>) -> Option<
        WardenError,
    > {
        if !self.policies.contains_key(wallet) {
            Some(WardenError::PolicyNotFound)
        } else if !self.policies[wallet].trusted_recipients.contains_key(recipient) {
            Some(WardenError::RecipientNotTrusted)
        } else {
            None
        }
    }

    /// The state after `remove_trusted_recipient` accepts.
    pub open spec fn after_remove_trusted_recipient(self, wallet: Seq<u8>, recipient: Seq<u8>) -> EnvView {
        let p = self.policies[wallet];
        EnvView {
            policies: self.policies.insert(
                wallet,
                PolicyView {
                    trusted_recipients: p.trusted_recipients.remove(recipient),
                    updated_at: self.timestamp,
                    ..p
                },
            ),
            ..self
        }.publish(ContractEventView::RecipientUntrusted { wallet, recipient })
    }

    /// Why the admin gate refuses `admin`, if it does: no admin stored yet,
    /// or a different one.
    pub open spec fn admin_error(self, admin: Seq<u8>) -> Option<WardenError> {
        match self.admin {
            None => Some(WardenError::NotInitialized),
            Some(a) => if a != admin {
                Some(WardenError::NotAdmin)
            } else {
                None
            },
        }
    }

    /// Why `add_flagged_address` refuses, if it does.
    pub open spec fn add_flagged_address_error(self, admin: Seq<u8>, address: Seq<u8>) -> Option<
        WardenError,
    > {
        if self.admin_error(admin) is Some {
            self.admin_error(admin)
        } else if self.is_flagged(address) {
            Some(WardenError::AddressAlreadyFlagged)
        } else {
            None
        }
    }

    /// Why `remove_flagged_address` refuses, if it does.
    pub open spec fn remove_flagged_address_error(self, admin: Seq<u8>, address: Seq<u8>) -> Option<
        WardenError,
    > {
        if self.admin_error(admin) is Some {
            self.admin_error(admin)
        } else if !self.is_flagged(address) {
            Some(WardenError::AddressNotFlagged)
        } else {
            None
        }
    }

    /// Why `set_guardians` refuses, if it does.
    pub open spec fn set_guardians_error(self, wallet: Seq<u8>, n: int, threshold: u32) -> Option<
        WardenError,
    > {
        if self.account_state(wallet).rank() > AccountState::Watch.rank() {
            Some(WardenError::GuardianConfigLocked)
        } else if !guardian_config_valid(n, threshold) {
            Some(WardenError::InvalidGuardianConfig)
        } else {
            None
        }
    }

    /// The state after `set_guardians` accepts.
    pub open spec fn after_set_guardians(self, wallet: Seq<u8>, guardians: Seq<Seq<u8>>, threshold: u32) -> EnvView {
        EnvView {
            guardian_configs: self.guardian_configs.insert(
                wallet,
                GuardianConfigView { guardians, threshold },
            ),
            ..self
        }.publish(ContractEventView::GuardiansSet { wallet, guardians, threshold })
    }

    /// Whether `g` is among `wallet`'s guardians.
    pub open spec fn is_guardian(self, wallet: Seq<u8>, g: Seq<u8>) -> bool {
        self.guardian_configs[wallet].guardians.contains(g)
    }

    /// Why `propose_recovery` refuses, if it does.
    pub open spec fn propose_recovery_error(
        self,
        wallet: Seq<u8>,
        proposer: Seq<u8>,
        target_state: AccountState,
    ) -> Option<WardenError> {
        if !self.guardian_configs.contains_key(wallet) {
            Some(WardenError::GuardiansNotConfigured)
        } else if !self.is_guardian(wallet, proposer) {
            Some(WardenError::NotGuardian)
        } else if self.recovery_proposals.contains_key(wallet) {
            Some(WardenError::RecoveryAlreadyProposed)
        } else if target_state.rank() >= self.account_state(wallet).rank() {
            Some(WardenError::InvalidTargetState)
        } else {
            None
        }
    }

    /// The state after `propose_recovery` accepts: a proposal whose timelock
    /// starts now, already approved by its proposer.
    pub open spec fn after_propose_recovery(
        self,
        wallet: Seq<u8>,
        proposer: Seq<u8>,
        target_state: AccountState,
    ) -> EnvView {
        EnvView {
            recovery_proposals: self.recovery_proposals.insert(
                wallet,
                RecoveryProposalView {
                    proposer,
                    target_state,
                    approvals: seq![proposer],
                    proposed_at: self.timestamp,
                    timelock_seconds: RECOVERY_TIMELOCK_SECONDS,
                },
            ),
            ..self
        }.publish(ContractEventView::RecoveryProposed { wallet, proposer, target_state })
    }

    /// Why `approve_recovery` refuses, if it does.
    pub open spec fn approve_recovery_error(self, wallet: Seq<u8>, guardian: Seq<u8>) -> Option<
        WardenError,
    > {
        if !self.guardian_configs.contains_key(wallet) {
            Some(WardenError::GuardiansNotConfigured)
        } else if !self.is_guardian(wallet, guardian) {
            Some(WardenError::NotGuardian)
        } else if !self.recovery_proposals.contains_key(wallet) {
            Some(WardenError::RecoveryNotFound)
        } else if self.recovery_proposals[wallet].approvals.contains(guardian) {
            Some(WardenError::AlreadyApproved)
        } else {
            None
        }
    }

    /// The state after `approve_recovery` accepts.
    pub open spec fn after_approve_recovery(self, wallet: Seq<u8>, guardian: Seq<u8>) -> EnvView {
        let p = self.recovery_proposals[wallet];
        let approvals = p.approvals.push(guardian);
        EnvView {
            recovery_proposals: self.recovery_proposals.insert(
                wallet,
                RecoveryProposalView { approvals, ..p },
            ),
            ..self
        }.publish(
            ContractEventView::RecoveryApproved {
                wallet,
                guardian,
                approvals_count: approvals.len() as u32,
            },
        )
    }

    /// Why `execute_recovery` refuses, if it does.
    pub open spec fn execute_recovery_error(self, wallet: Seq<u8>) -> Option<WardenError> {
        if !self.guardian_configs.contains_key(wallet) {
            Some(WardenError::GuardiansNotConfigured)
        } else if !self.recovery_proposals.contains_key(wallet) {
            Some(WardenError::RecoveryNotFound)
        } else if self.recovery_proposals[wallet].approvals.len()
            < self.guardian_configs[wallet].threshold {
            Some(WardenError::InsufficientApprovals)
        } else if self.timestamp < self.recovery_proposals[wallet].proposed_at
            + self.recovery_proposals[wallet].timelock_seconds {
            Some(WardenError::TimelockNotElapsed)
        } else {
            None
        }
    }

    /// The state after `execute_recovery` accepts: the account is in the
    /// proposal's target state and the proposal is gone.
    pub open spec fn after_execute_recovery(self, wallet: Seq<u8>) -> EnvView {
        let p = self.recovery_proposals[wallet];
        EnvView {
            account_states: self.account_states.insert(wallet, p.target_state),
            recovery_proposals: self.recovery_proposals.remove(wallet),
            ..self
        }.publish(ContractEventView::RecoveryExecuted { wallet, target_state: p.target_state })
    }

    /// Why `cancel_recovery` refuses, if it does.
    pub open spec fn cancel_recovery_error(self, wallet: Seq<u8>) -> Option<WardenError> {
        if !self.recovery_proposals.contains_key(wallet) {
            Some(WardenError::RecoveryNotFound)
        } else {
            None
        }
    }

    /// The state after `cancel_recovery` accepts: the proposal is gone.
    pub open spec fn after_cancel_recovery(self, wallet: Seq<u8>) -> EnvView {
        let p = self.recovery_proposals[wallet];
        EnvView { recovery_proposals: self.recovery_proposals.remove(wallet), ..self }.publish(
            ContractEventView::RecoveryCancelled {
                wallet,
                proposer: p.proposer,
                target_state: p.target_state,
            },
        )
    }
}

} // verus!
