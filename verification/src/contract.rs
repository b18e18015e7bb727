//! The contract's operations. Each takes the environment it runs in; the
//! caller has already checked the authorisations that the operation's
//! documentation names.

use vstd::prelude::*;
use crate::env::{ContractEvent, ContractEventView, Env, EnvView};
use crate::errors::WardenError;
use crate::address::{address_views, addresses_contain, clone_addresses, AddrMap, Address};
use crate::rules::{
    actively_trusted, effective_window, policy_params_valid,
    MAX_GUARDIANS, RECOVERY_TIMELOCK_SECONDS, SECONDS_PER_DAY, SECONDS_PER_HOUR,
};
use crate::storage;
use crate::types::{
    AccountState, Decision, GuardianConfig, Policy, RecoveryProposal, StepUpReason,
    VelocityWindow,
};

verus! {

/// The Warden policy contract.
pub struct WardenContract;

/// The window that applies at time `now` to the stored window `stored`.
fn current_window(stored: VelocityWindow, now: u64, period: u64) -> (r: VelocityWindow)
    requires
        stored.window_start <= now,
    ensures
        r == effective_window(stored, now, period),
{
    if now - stored.window_start >= period {
        VelocityWindow { window_start: now, cumulative_amount: 0, tx_count: 0 }
    } else {
        stored
    }
}

/// Whether `recipient` counts as trusted by `policy` at time `now`.
fn is_actively_trusted(policy: &Policy, recipient: &Address, now: u64) -> (r: bool)
    ensures
        r == actively_trusted(policy@, recipient@, now),
{
    match policy.trusted_recipients.get(recipient) {
        Some(last_paid_at) => *last_paid_at >= now || now - *last_paid_at <= policy.trust_decay_seconds,
        None => false,
    }
}

impl WardenContract {
    /// Whether evaluating a transfer of `amount` from `wallet` now stays
    /// within the machine's integers, as `evaluate` requires.
    pub fn evaluation_in_range(env: &Env, wallet: &Address, amount: i128) -> (r: bool)
        ensures
            r == env@.evaluation_in_range(wallet@, amount),
    {
        let now = env.timestamp;
        let stored_daily = match storage::read_daily_velocity(env, wallet) {
            Some(w) => w,
            None => VelocityWindow::zeroed(),
        };
        let stored_hourly = match storage::read_hourly_velocity(env, wallet) {
            Some(w) => w,
            None => VelocityWindow::zeroed(),
        };
        if stored_daily.window_start > now || stored_hourly.window_start > now {
            return false;
        }
        let daily = current_window(stored_daily, now, SECONDS_PER_DAY);
        let hourly = current_window(stored_hourly, now, SECONDS_PER_HOUR);
        let fits = |total: i128| -> (b: bool)
            ensures
                b == (total + amount <= i128::MAX),
            { amount <= 0 || total <= i128::MAX - amount };
        fits(daily.cumulative_amount) && fits(hourly.cumulative_amount) && daily.tx_count < u32::MAX
            && hourly.tx_count < u32::MAX
    }

    /// One-time setup: stores the admin and the reference asset. The caller
    /// has checked `admin`'s authorisation. Refused with `AlreadyInitialized`
    /// once an admin is stored.
    pub fn initialize(env: &mut Env, admin: Address, reference_asset: Address) -> (r: Result<
        (),
        WardenError,
    >)
        ensures
            old(env)@.admin is Some ==> r == Err::<(), WardenError>(WardenError::AlreadyInitialized)
                && final(env)@ == old(env)@,
            old(env)@.admin is None ==> r == Ok::<(), WardenError>(()) && final(env)@ == (EnvView {
                admin: Some(admin@),
                reference_asset: Some(reference_asset@),
                ..old(env)@
            }),
    {
        if env.admin.is_some() {
            return Err(WardenError::AlreadyInitialized);
        }
        env.admin = Some(admin);
        env.reference_asset = Some(reference_asset);
        Ok(())
    }

    /// Creates `wallet`'s policy, or replaces the five configurable fields of
    /// the existing one, leaving its trusted recipients as they are. The
    /// caller has checked `wallet`'s authorisation. Refused with
    /// `InvalidPolicyParams` unless `policy_params_valid` holds.
    pub fn set_policy(
        env: &mut Env,
        wallet: Address,
        max_no_stepup: i128,
        daily_velocity_cap: i128,
        new_recipient_requires_stepup: bool,
        hourly_velocity_cap: i128,
        trust_decay_seconds: u64,
    ) -> (r: Result<(), WardenError>)
        ensures
            !policy_params_valid(max_no_stepup, daily_velocity_cap, hourly_velocity_cap) ==> r == Err::<
                (),
                WardenError,
            >(WardenError::InvalidPolicyParams) && final(env)@ == old(env)@,
            policy_params_valid(max_no_stepup, daily_velocity_cap, hourly_velocity_cap) ==> r == Ok::<
                (),
                WardenError,
            >(()) && final(env)@ == old(env)@.after_set_policy(
                wallet@,
                max_no_stepup,
                daily_velocity_cap,
                new_recipient_requires_stepup,
                hourly_velocity_cap,
                trust_decay_seconds,
            ),
    {
        // The hourly cap sits between zero and the daily cap: more per hour
        // than per day would make the hourly window meaningless.
        if max_no_stepup < 0 || daily_velocity_cap < max_no_stepup || hourly_velocity_cap < 0
            || hourly_velocity_cap > daily_velocity_cap {
            return Err(WardenError::InvalidPolicyParams);
        }
        let now = env.timestamp;
        let policy = match storage::read_policy(env, &wallet) {
            Some(existing) => {
                let mut p = existing;
                p.max_no_stepup = max_no_stepup;
                p.daily_velocity_cap = daily_velocity_cap;
                p.hourly_velocity_cap = hourly_velocity_cap;
                p.new_recipient_requires_stepup = new_recipient_requires_stepup;
                p.trust_decay_seconds = trust_decay_seconds;
                p.updated_at = now;
                p
            },
            None => Policy {
                owner: wallet.clone(),
                max_no_stepup,
                daily_velocity_cap,
                hourly_velocity_cap,
                new_recipient_requires_stepup,
                trusted_recipients: AddrMap::new(),
                trust_decay_seconds,
                updated_at: now,
            },
        };
        storage::write_policy(env, &wallet, &policy);
        env.publish(
            ContractEvent::PolicySet {
                wallet,
                max_no_stepup,
                daily_velocity_cap,
                hourly_velocity_cap,
                new_recipient_requires_stepup,
                trust_decay_seconds,
            },
        );
        Ok(())
    }

    /// Trusts `recipient` for `wallet`, as paid now. The caller has checked
    /// `wallet`'s authorisation. Refused with `PolicyNotFound` without a
    /// policy, `RecipientAlreadyTrusted` when already trusted.
    pub fn add_trusted_recipient(env: &mut Env, wallet: Address, recipient: Address) -> (r: Result<
        (),
        WardenError,
    >)
        ensures
            old(env)@.add_trusted_recipient_error(wallet@, recipient@) matches Some(e) ==> r == Err::<
                (),
                WardenError,
            >(e) && final(env)@ == old(env)@,
            old(env)@.add_trusted_recipient_error(wallet@, recipient@) is None ==> r == Ok::<
                (),
                WardenError,
            >(()) && final(env)@ == old(env)@.after_add_trusted_recipient(wallet@, recipient@),
    {
        let mut policy = match storage::read_policy(env, &wallet) {
            Some(p) => p,
            None => return Err(WardenError::PolicyNotFound),
        };
        if policy.trusted_recipients.contains_key(&recipient) {
            return Err(WardenError::RecipientAlreadyTrusted);
        }
        let now = env.timestamp;
        policy.trusted_recipients.set(recipient.clone(), now);
        policy.updated_at = now;
        storage::write_policy(env, &wallet, &policy);
        env.publish(ContractEvent::RecipientTrusted { wallet, recipient });
        Ok(())
    }

    /// Stops trusting `recipient` for `wallet`. The caller has checked
    /// `wallet`'s authorisation. Refused with `PolicyNotFound` without a
    /// policy, `RecipientNotTrusted` when not trusted.
    pub fn remove_trusted_recipient(env: &mut Env, wallet: Address, recipient: Address) -> (r: Result<
        (),
        WardenError,
    >)
        ensures
            old(env)@.remove_trusted_recipient_error(wallet@, recipient@) matches Some(e) ==> r == Err::<
                (),
                WardenError,
            >(e) && final(env)@ == old(env)@,
            old(env)@.remove_trusted_recipient_error(wallet@, recipient@) is None ==> r == Ok::<
                (),
                WardenError,
            >(()) && final(env)@ == old(env)@.after_remove_trusted_recipient(wallet@, recipient@),
    {
        let mut policy = match storage::read_policy(env, &wallet) {
            Some(p) => p,
            None => return Err(WardenError::PolicyNotFound),
        };
        if !policy.trusted_recipients.contains_key(&recipient) {
            return Err(WardenError::RecipientNotTrusted);
        }
        policy.trusted_recipients.remove(&recipient);
        policy.updated_at = env.timestamp;
        storage::write_policy(env, &wallet, &policy);
        env.publish(ContractEvent::RecipientUntrusted { wallet, recipient });
        Ok(())
    }

    /// `wallet`'s policy; `PolicyNotFound` when it has none. Needs no
    /// authorisation.
    pub fn get_policy(env: &Env, wallet: Address) -> (r: Result<Policy, WardenError>)
        ensures
            r is Ok == env@.policies.contains_key(wallet@),
            r matches Ok(p) ==> p@ == env@.policies[wallet@],
            r matches Err(e) ==> e == WardenError::PolicyNotFound,
    {
        match storage::read_policy(env, &wallet) {
            Some(p) => Ok(p),
            None => Err(WardenError::PolicyNotFound),
        }
    }

    /// `wallet`'s stored daily window, zeroed for a wallet with no activity
    /// yet. Needs no authorisation and never fails.
    pub fn get_velocity(env: &Env, wallet: Address) -> (r: Result<VelocityWindow, WardenError>)
        ensures
            r == Ok::<VelocityWindow, WardenError>(env@.daily_window(wallet@)),
    {
        let window = match storage::read_daily_velocity(env, &wallet) {
            Some(w) => w,
            None => VelocityWindow::zeroed(),
        };
        Ok(window)
    }

    /// Adds `address` to the flagged-address registry. The caller has checked
    /// `admin`'s authorisation; `admin` must also be the stored admin
    /// (`NotInitialized` when none is stored, `NotAdmin` when another is).
    /// Refused with `AddressAlreadyFlagged` when already flagged.
    pub fn add_flagged_address(env: &mut Env, admin: Address, address: Address) -> (r: Result<
        (),
        WardenError,
    >)
        ensures
            old(env)@.add_flagged_address_error(admin@, address@) matches Some(e) ==> r == Err::<
                (),
                WardenError,
            >(e) && final(env)@ == old(env)@,
            old(env)@.add_flagged_address_error(admin@, address@) is None ==> r == Ok::<
                (),
                WardenError,
            >(()) && final(env)@ == (EnvView {
                flagged: old(env)@.flagged.insert(address@, true),
                ..old(env)@
            }).publish(ContractEventView::AddressFlagged { admin: admin@, address: address@ }),
    {
        Self::check_admin(env, &admin)?;
        if storage::is_address_flagged(env, &address) {
            return Err(WardenError::AddressAlreadyFlagged);
        }
        storage::write_flagged_address(env, &address);
        env.publish(ContractEvent::AddressFlagged { admin, address });
        Ok(())
    }

    /// Removes `address` from the flagged-address registry, under the same
    /// admin gate as `add_flagged_address`. Refused with `AddressNotFlagged`
    /// when not flagged.
    pub fn remove_flagged_address(env: &mut Env, admin: Address, address: Address) -> (r: Result<
        (),
        WardenError,
    >)
        ensures
            old(env)@.remove_flagged_address_error(admin@, address@) matches Some(e) ==> r == Err::<
                (),
                WardenError,
            >(e) && final(env)@ == old(env)@,
            old(env)@.remove_flagged_address_error(admin@, address@) is None ==> r == Ok::<
                (),
                WardenError,
            >(()) && final(env)@ == (EnvView {
                flagged: old(env)@.flagged.remove(address@),
                ..old(env)@
            }).publish(ContractEventView::AddressUnflagged { admin: admin@, address: address@ }),
    {
        Self::check_admin(env, &admin)?;
        if !storage::is_address_flagged(env, &address) {
            return Err(WardenError::AddressNotFlagged);
        }
        storage::remove_flagged_address(env, &address);
        env.publish(ContractEvent::AddressUnflagged { admin, address });
        Ok(())
    }

    /// The admin gate: `admin` must be the admin stored at initialisation.
    fn check_admin(env: &Env, admin: &Address) -> (r: Result<(), WardenError>)
        ensures
            match env@.admin_error(admin@) {
                Some(e) => r == Err::<(), WardenError>(e),
                None => r == Ok::<(), WardenError>(()),
            },
    {
        match &env.admin {
            None => Err(WardenError::NotInitialized),
            Some(stored) => if stored.same_as(admin) {
                Ok(())
            } else {
                Err(WardenError::NotAdmin)
            },
        }
    }

    /// Names `wallet`'s guardians and how many of them must approve a
    /// recovery. The caller has checked `wallet`'s authorisation. Refused with
    /// `GuardianConfigLocked` while the account is `Restricted` or worse, and
    /// with `InvalidGuardianConfig` unless `guardian_config_valid` holds.
    pub fn set_guardians(env: &mut Env, wallet: Address, guardians: Vec<Address>, threshold: u32) -> (r:
        Result<(), WardenError>)
        ensures
            old(env)@.set_guardians_error(wallet@, guardians@.len() as int, threshold) matches Some(e)
                ==> r == Err::<(), WardenError>(e) && final(env)@ == old(env)@,
            old(env)@.set_guardians_error(wallet@, guardians@.len() as int, threshold) is None ==> r
                == Ok::<(), WardenError>(()) && final(env)@ == old(env)@.after_set_guardians(
                wallet@,
                address_views(guardians@),
                threshold,
            ),
    {
        let state = storage::read_account_state(env, &wallet);
        if state.restrictiveness() > AccountState::Watch.restrictiveness() {
            return Err(WardenError::GuardianConfigLocked);
        }
        if guardians.len() > MAX_GUARDIANS || threshold == 0 || threshold as usize > guardians.len() {
            return Err(WardenError::InvalidGuardianConfig);
        }
        let config = GuardianConfig { guardians: clone_addresses(&guardians), threshold };
        storage::write_guardian_config(env, &wallet, &config);
        env.publish(ContractEvent::GuardiansSet { wallet, guardians, threshold });
        Ok(())
    }

    /// Proposes to move `wallet`'s account to `target_state`. The caller has
    /// checked `proposer`'s authorisation. The timelock starts now and the
    /// proposer's own approval counts at once. Refused with
    /// `GuardiansNotConfigured`, `NotGuardian`, `RecoveryAlreadyProposed`, or
    /// `InvalidTargetState` when the target is not strictly less restrictive
    /// than the current state, checked in that order.
    pub fn propose_recovery(
        env: &mut Env,
        wallet: Address,
        proposer: Address,
        target_state: AccountState,
    ) -> (r: Result<(), WardenError>)
        ensures
            old(env)@.propose_recovery_error(wallet@, proposer@, target_state) matches Some(e) ==> r
                == Err::<(), WardenError>(e) && final(env)@ == old(env)@,
            old(env)@.propose_recovery_error(wallet@, proposer@, target_state) is None ==> r == Ok::<
                (),
                WardenError,
            >(()) && final(env)@ == old(env)@.after_propose_recovery(
                wallet@,
                proposer@,
                target_state,
            ),
    {
        let config = match storage::read_guardian_config(env, &wallet) {
            Some(c) => c,
            None => return Err(WardenError::GuardiansNotConfigured),
        };
        if !addresses_contain(&config.guardians, &proposer) {
            return Err(WardenError::NotGuardian);
        }
        if env.recovery_proposals.contains_key(&wallet) {
            return Err(WardenError::RecoveryAlreadyProposed);
        }
        let current = storage::read_account_state(env, &wallet);
        if target_state.restrictiveness() >= current.restrictiveness() {
            return Err(WardenError::InvalidTargetState);
        }
        let mut approvals: Vec<Address> = Vec::new();
        approvals.push(proposer.clone());
        let proposal = RecoveryProposal {
            proposer: proposer.clone(),
            target_state,
            approvals,
            proposed_at: env.timestamp,
            timelock_seconds: RECOVERY_TIMELOCK_SECONDS,
        };
        assert(address_views(proposal.approvals@) =~= seq![proposer@]);
        storage::write_recovery_proposal(env, &wallet, &proposal);
        env.publish(ContractEvent::RecoveryProposed { wallet, proposer, target_state });
        Ok(())
    }

    /// Adds `guardian`'s approval to `wallet`'s pending proposal. The caller
    /// has checked `guardian`'s authorisation. Refused with
    /// `GuardiansNotConfigured`, `NotGuardian`, `RecoveryNotFound` or
    /// `AlreadyApproved`, checked in that order.
    pub fn approve_recovery(env: &mut Env, wallet: Address, guardian: Address) -> (r: Result<
        (),
        WardenError,
    >)
        requires
            old(env)@.recovery_proposals.contains_key(wallet@) ==> old(env)@.recovery_proposals[wallet@].approvals.len()
                < u32::MAX,
        ensures
            old(env)@.approve_recovery_error(wallet@, guardian@) matches Some(e) ==> r == Err::<
                (),
                WardenError,
            >(e) && final(env)@ == old(env)@,
            old(env)@.approve_recovery_error(wallet@, guardian@) is None ==> r == Ok::<
                (),
                WardenError,
            >(()) && final(env)@ == old(env)@.after_approve_recovery(wallet@, guardian@),
    {
        let config = match storage::read_guardian_config(env, &wallet) {
            Some(c) => c,
            None => return Err(WardenError::GuardiansNotConfigured),
        };
        if !addresses_contain(&config.guardians, &guardian) {
            return Err(WardenError::NotGuardian);
        }
        let mut proposal = match storage::read_recovery_proposal(env, &wallet) {
            Some(p) => p,
            None => return Err(WardenError::RecoveryNotFound),
        };
        if addresses_contain(&proposal.approvals, &guardian) {
            return Err(WardenError::AlreadyApproved);
        }
        let ghost before = proposal.approvals@;
        proposal.approvals.push(guardian.clone());
        assert(address_views(proposal.approvals@) =~= address_views(
            before,
        ).push(guardian@));
        let approvals_count = proposal.approvals.len() as u32;
        storage::write_recovery_proposal(env, &wallet, &proposal);
        env.publish(ContractEvent::RecoveryApproved { wallet, guardian, approvals_count });
        Ok(())
    }

    /// Moves `wallet`'s account to the pending proposal's target state and
    /// clears the proposal. Needs no authorisation at all: routing around an
    /// owner key that is lost or compromised is what recovery is for. Refused
    /// with `GuardiansNotConfigured`, `RecoveryNotFound`,
    /// `InsufficientApprovals` while fewer guardians than the threshold have
    /// approved, or `TimelockNotElapsed` before the timelock has run out,
    /// checked in that order.
    pub fn execute_recovery(env: &mut Env, wallet: Address) -> (r: Result<(), WardenError>)
        ensures
            old(env)@.execute_recovery_error(wallet@) matches Some(e) ==> r == Err::<(), WardenError>(
                e,
            ) && final(env)@ == old(env)@,
            old(env)@.execute_recovery_error(wallet@) is None ==> r == Ok::<(), WardenError>(())
                && final(env)@ == old(env)@.after_execute_recovery(wallet@),
    {
        let config = match storage::read_guardian_config(env, &wallet) {
            Some(c) => c,
            None => return Err(WardenError::GuardiansNotConfigured),
        };
        let proposal = match storage::read_recovery_proposal(env, &wallet) {
            Some(p) => p,
            None => return Err(WardenError::RecoveryNotFound),
        };
        if proposal.approvals.len() < config.threshold as usize {
            return Err(WardenError::InsufficientApprovals);
        }
        let now = env.timestamp;
        if now < proposal.proposed_at || now - proposal.proposed_at < proposal.timelock_seconds {
            return Err(WardenError::TimelockNotElapsed);
        }
        storage::write_account_state(env, &wallet, &proposal.target_state);
        storage::remove_recovery_proposal(env, &wallet);
        env.publish(
            ContractEvent::RecoveryExecuted { wallet, target_state: proposal.target_state },
        );
        Ok(())
    }

    /// Withdraws `wallet`'s pending proposal: the owner's veto. The caller
    /// has checked `wallet`'s authorisation. Refused with `RecoveryNotFound`
    /// when none is pending.
    pub fn cancel_recovery(env: &mut Env, wallet: Address) -> (r: Result<(), WardenError>)
        ensures
            old(env)@.cancel_recovery_error(wallet@) matches Some(e) ==> r == Err::<(), WardenError>(
                e,
            ) && final(env)@ == old(env)@,
            old(env)@.cancel_recovery_error(wallet@) is None ==> r == Ok::<(), WardenError>(())
                && final(env)@ == old(env)@.after_cancel_recovery(wallet@),
    {
        let proposal = match storage::read_recovery_proposal(env, &wallet) {
            Some(p) => p,
            None => return Err(WardenError::RecoveryNotFound),
        };
        storage::remove_recovery_proposal(env, &wallet);
        env.publish(
            ContractEvent::RecoveryCancelled {
                wallet,
                proposer: proposal.proposer,
                target_state: proposal.target_state,
            },
        );
        Ok(())
    }

    /// Decides whether a transfer of `amount` from `wallet` to `recipient`
    /// needs step-up confirmation. The caller has checked `wallet`'s
    /// authorisation.
    ///
    /// A wallet with no policy gets `PolicyNotFound`, a non-positive amount
    /// `InvalidAmount`. Otherwise the decision is `EnvView::evaluation`, and
    /// both velocity windows count the transfer whatever the decision.
    pub fn evaluate(env: &mut Env, wallet: Address, recipient: Address, amount: i128) -> (r: Result<
        Decision,
        WardenError,
    >)
        requires
            old(env)@.policies.contains_key(wallet@) && amount > 0 ==> old(env)@.evaluation_in_range(
                wallet@,
                amount,
            ),
        ensures
            !old(env)@.policies.contains_key(wallet@) ==> r == Err::<Decision, WardenError>(
                WardenError::PolicyNotFound,
            ) && final(env)@ == old(env)@,
            old(env)@.policies.contains_key(wallet@) && amount <= 0 ==> r == Err::<
                Decision,
                WardenError,
            >(WardenError::InvalidAmount) && final(env)@ == old(env)@,
            old(env)@.policies.contains_key(wallet@) && amount > 0 ==> r == Ok::<
                Decision,
                WardenError,
            >(old(env)@.evaluation(wallet@, recipient@, amount)) && final(env)@ == old(
                env,
            )@.after_evaluation(wallet@, recipient@, amount),
    {
        let ghost s = env@;
        let policy = match storage::read_policy(env, &wallet) {
            Some(p) => p,
            None => return Err(WardenError::PolicyNotFound),
        };
        if amount <= 0 {
            return Err(WardenError::InvalidAmount);
        }
        let now = env.timestamp;
        let stored_daily = match storage::read_daily_velocity(env, &wallet) {
            Some(w) => w,
            None => VelocityWindow::zeroed(),
        };
        let mut daily = current_window(stored_daily, now, SECONDS_PER_DAY);
        let stored_hourly = match storage::read_hourly_velocity(env, &wallet) {
            Some(w) => w,
            None => VelocityWindow::zeroed(),
        };
        let mut hourly = current_window(stored_hourly, now, SECONDS_PER_HOUR);
        assert(daily == s.current_daily(wallet@));
        assert(hourly == s.current_hourly(wallet@));

        let decision = if storage::is_address_flagged(env, &recipient) {
            Decision::RequireStepUp(StepUpReason::FlaggedRecipient)
        } else if policy.new_recipient_requires_stepup && !is_actively_trusted(
            &policy,
            &recipient,
            now,
        ) {
            Decision::RequireStepUp(StepUpReason::NewRecipient)
        } else if amount > policy.max_no_stepup {
            Decision::RequireStepUp(StepUpReason::AmountExceeded)
        } else if hourly.cumulative_amount + amount > policy.hourly_velocity_cap {
            Decision::RequireStepUp(StepUpReason::HourlyVelocityExceeded)
        } else if daily.cumulative_amount + amount > policy.daily_velocity_cap {
            Decision::RequireStepUp(StepUpReason::VelocityExceeded)
        } else {
            Decision::Allow
        };
        assert(decision == s.evaluation(wallet@, recipient@, amount));

        // Both windows count the transfer whatever the decision: a transfer
        // that needed step-up and was then completed still happened.
        daily.cumulative_amount = daily.cumulative_amount + amount;
        daily.tx_count = daily.tx_count + 1;
        storage::write_daily_velocity(env, &wallet, &daily);
        hourly.cumulative_amount = hourly.cumulative_amount + amount;
        hourly.tx_count = hourly.tx_count + 1;
        storage::write_hourly_velocity(env, &wallet, &hourly);

        if policy.trusted_recipients.contains_key(&recipient) {
            let mut refreshed = policy;
            refreshed.trusted_recipients.set(recipient.clone(), now);
            storage::write_policy(env, &wallet, &refreshed);
        }
        let event = match decision {
            Decision::Allow => ContractEvent::EvaluationAllowed { wallet, recipient, amount },
            Decision::RequireStepUp(reason) => ContractEvent::StepupRequired {
                wallet,
                recipient,
                amount,
                reason,
            },
        };
        env.publish(event);
        assert(env@ == s.after_evaluation(wallet@, recipient@, amount));
        Ok(decision)
    }
}

} // verus!
