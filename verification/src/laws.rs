//! Properties of the contract that relate its operations to one another, or
//! hold of every input, proved over the specifications that the operations'
//! own contracts use.

use vstd::prelude::*;
use crate::env::EnvView;
use crate::rules::{actively_trusted, effective_window};
use crate::rules::{policy_params_valid, MAX_GUARDIANS, RECOVERY_TIMELOCK_SECONDS, SECONDS_PER_DAY, SECONDS_PER_HOUR};
use crate::errors::WardenError;
use crate::types::{AccountState, Decision, GuardianConfigView, StepUpReason, VelocityWindow};

verus! {

/// A flagged recipient always needs step-up, whatever the amount, the trust
/// it enjoys, or the headroom left in either velocity window.
pub proof fn law_flagged_recipient_always_steps_up(
    s: EnvView,
    wallet: Seq<u8>,
    recipient: Seq<u8>,
    amount: i128,
)
    requires
        s.is_flagged(recipient),
    ensures
        s.evaluation(wallet, recipient, amount) == Decision::RequireStepUp(
            StepUpReason::FlaggedRecipient,
        ),
{
}

/// An allowed transfer respects every rule of the policy: the recipient is
/// not flagged, it is trusted where the policy asks for that, the amount is
/// within the per-transfer ceiling, and both windows stay within their caps
/// once the transfer is counted.
pub proof fn law_allow_respects_every_limit(
    s: EnvView,
    wallet: Seq<u8>,
    recipient: Seq<u8>,
    amount: i128,
)
    requires
        s.evaluation(wallet, recipient, amount) == Decision::Allow,
    ensures
        !s.is_flagged(recipient),
        s.policies[wallet].new_recipient_requires_stepup ==> actively_trusted(
            s.policies[wallet],
            recipient,
            s.timestamp,
        ),
        amount <= s.policies[wallet].max_no_stepup,
        s.current_hourly(wallet).cumulative_amount + amount <= s.policies[wallet].hourly_velocity_cap,
        s.current_daily(wallet).cumulative_amount + amount <= s.policies[wallet].daily_velocity_cap,
{
}

/// When a transfer would exceed both velocity caps and no earlier check
/// matches, the hourly reason is the one reported.
pub proof fn law_hourly_reason_reported_before_daily(
    s: EnvView,
    wallet: Seq<u8>,
    recipient: Seq<u8>,
    amount: i128,
)
    requires
        !s.is_flagged(recipient),
        !s.policies[wallet].new_recipient_requires_stepup,
        amount <= s.policies[wallet].max_no_stepup,
        s.current_hourly(wallet).cumulative_amount + amount > s.policies[wallet].hourly_velocity_cap,
        s.current_daily(wallet).cumulative_amount + amount > s.policies[wallet].daily_velocity_cap,
    ensures
        s.evaluation(wallet, recipient, amount) == Decision::RequireStepUp(
            StepUpReason::HourlyVelocityExceeded,
        ),
{
}

/// A recipient that is among the trusted ones but was last paid longer ago
/// than the policy's decay period is treated as a new recipient.
pub proof fn law_decayed_recipient_needs_stepup(
    s: EnvView,
    wallet: Seq<u8>,
    recipient: Seq<u8>,
    amount: i128,
)
    requires
        !s.is_flagged(recipient),
        s.policies[wallet].new_recipient_requires_stepup,
        s.policies[wallet].trusted_recipients.contains_key(recipient),
        s.timestamp - s.policies[wallet].trusted_recipients[recipient]
            > s.policies[wallet].trust_decay_seconds,
    ensures
        s.evaluation(wallet, recipient, amount) == Decision::RequireStepUp(
            StepUpReason::NewRecipient,
        ),
{
}

/// A recipient just added to the trusted ones counts as trusted at once.
pub proof fn law_added_recipient_is_trusted_at_once(s: EnvView, wallet: Seq<u8>, recipient: Seq<u8>)
    requires
        s.add_trusted_recipient_error(wallet, recipient) is None,
    ensures
        actively_trusted(
            s.after_add_trusted_recipient(wallet, recipient).policies[wallet],
            recipient,
            s.timestamp,
        ),
{
}

/// Every evaluated transfer counts in both windows, whatever the decision:
/// each window's total grows by the amount and its count by one, starting
/// from the window that applies now.
pub proof fn law_every_evaluated_transfer_counts(
    s: EnvView,
    wallet: Seq<u8>,
    recipient: Seq<u8>,
    amount: i128,
)
    requires
        amount > 0,
        s.evaluation_in_range(wallet, amount),
    ensures
        s.after_evaluation(wallet, recipient, amount).daily_window(wallet).cumulative_amount
            == s.current_daily(wallet).cumulative_amount + amount,
        s.after_evaluation(wallet, recipient, amount).daily_window(wallet).tx_count
            == s.current_daily(wallet).tx_count + 1,
        s.after_evaluation(wallet, recipient, amount).hourly_window(wallet).cumulative_amount
            == s.current_hourly(wallet).cumulative_amount + amount,
        s.after_evaluation(wallet, recipient, amount).hourly_window(wallet).tx_count
            == s.current_hourly(wallet).tx_count + 1,
{
}

/// The windows are fixed, not sliding: a window starts afresh, empty, once
/// its whole period has passed since it started, and is kept as it is until
/// then.
pub proof fn law_windows_reset_after_their_period(stored: VelocityWindow, now: u64, period: u64)
    requires
        stored.window_start <= now,
    ensures
        now - stored.window_start >= period ==> effective_window(stored, now, period)
            == (VelocityWindow { window_start: now, cumulative_amount: 0, tx_count: 0 }),
        now - stored.window_start < period ==> effective_window(stored, now, period) == stored,
{
}

/// Evaluating a transfer never changes a policy's configuration: only the
/// last payment time of a recipient that was already trusted moves, and the
/// time of the last configuration change stays as it was.
pub proof fn law_evaluation_keeps_policy_configuration(
    s: EnvView,
    wallet: Seq<u8>,
    recipient: Seq<u8>,
    amount: i128,
)
    requires
        s.policies.contains_key(wallet),
    ensures
        ({
            let before = s.policies[wallet];
            let after = s.after_evaluation(wallet, recipient, amount).policies[wallet];
            &&& after.owner == before.owner
            &&& after.max_no_stepup == before.max_no_stepup
            &&& after.daily_velocity_cap == before.daily_velocity_cap
            &&& after.hourly_velocity_cap == before.hourly_velocity_cap
            &&& after.new_recipient_requires_stepup == before.new_recipient_requires_stepup
            &&& after.trust_decay_seconds == before.trust_decay_seconds
            &&& after.updated_at == before.updated_at
            &&& after.trusted_recipients.dom() == before.trusted_recipients.dom()
        }),
{
    let before = s.policies[wallet];
    let after = s.after_evaluation(wallet, recipient, amount).policies[wallet];
    if before.trusted_recipients.contains_key(recipient) {
        assert(after.trusted_recipients.dom() =~= before.trusted_recipients.dom());
    }
}

/// Reading a policy back after `set_policy` gives the values just set, and
/// the trusted recipients it had before.
pub proof fn law_set_policy_then_read(
    s: EnvView,
    wallet: Seq<u8>,
    max_no_stepup: i128,
    daily_velocity_cap: i128,
    new_recipient_requires_stepup: bool,
    hourly_velocity_cap: i128,
    trust_decay_seconds: u64,
)
    ensures
        ({
            let after = s.after_set_policy(
                wallet,
                max_no_stepup,
                daily_velocity_cap,
                new_recipient_requires_stepup,
                hourly_velocity_cap,
                trust_decay_seconds,
            );
            let p = after.policies[wallet];
            &&& after.policies.contains_key(wallet)
            &&& p.max_no_stepup == max_no_stepup
            &&& p.daily_velocity_cap == daily_velocity_cap
            &&& p.hourly_velocity_cap == hourly_velocity_cap
            &&& p.new_recipient_requires_stepup == new_recipient_requires_stepup
            &&& p.trust_decay_seconds == trust_decay_seconds
            &&& p.updated_at == s.timestamp
            &&& s.policies.contains_key(wallet) ==> p.trusted_recipients
                == s.policies[wallet].trusted_recipients && p.owner == s.policies[wallet].owner
            &&& !s.policies.contains_key(wallet) ==> p.trusted_recipients.is_empty() && p.owner
                == wallet
        }),
{
}

/// Removing a recipient right after adding it gives back the trusted
/// recipients the wallet had before.
pub proof fn law_remove_undoes_add_trusted_recipient(s: EnvView, wallet: Seq<u8>, recipient: Seq<u8>)
    requires
        s.add_trusted_recipient_error(wallet, recipient) is None,
    ensures
        s.after_add_trusted_recipient(wallet, recipient).remove_trusted_recipient_error(
            wallet,
            recipient,
        ) is None,
        s.after_add_trusted_recipient(wallet, recipient).after_remove_trusted_recipient(
            wallet,
            recipient,
        ).policies[wallet].trusted_recipients == s.policies[wallet].trusted_recipients,
{
    let t = s.policies[wallet].trusted_recipients;
    assert(t.insert(recipient, s.timestamp).remove(recipient) =~= t);
}

/// Unflagging an address right after flagging it leaves every address
/// flagged exactly as before.
pub proof fn law_unflag_undoes_flag(s: EnvView, admin: Seq<u8>, address: Seq<u8>, other: Seq<u8>)
    requires
        s.add_flagged_address_error(admin, address) is None,
    ensures
        ({
            let flagged = EnvView { flagged: s.flagged.insert(address, true), ..s };
            let unflagged = EnvView { flagged: flagged.flagged.remove(address), ..flagged };
            &&& flagged.remove_flagged_address_error(admin, address) is None
            &&& unflagged.is_flagged(other) == s.is_flagged(other)
        }),
{
}

/// An operation on one wallet's policy leaves every other wallet's policy as
/// it was: nobody sets a policy on another wallet's behalf.
pub proof fn law_policy_operations_touch_only_their_wallet(
    s: EnvView,
    wallet: Seq<u8>,
    other: Seq<u8>,
    recipient: Seq<u8>,
    amount: i128,
    max_no_stepup: i128,
    daily_velocity_cap: i128,
    new_recipient_requires_stepup: bool,
    hourly_velocity_cap: i128,
    trust_decay_seconds: u64,
)
    requires
        other != wallet,
    ensures
        s.after_set_policy(
            wallet,
            max_no_stepup,
            daily_velocity_cap,
            new_recipient_requires_stepup,
            hourly_velocity_cap,
            trust_decay_seconds,
        ).policies.get(other) == s.policies.get(other),
        s.after_add_trusted_recipient(wallet, recipient).policies.get(other) == s.policies.get(other),
        s.after_remove_trusted_recipient(wallet, recipient).policies.get(other) == s.policies.get(
            other,
        ),
        s.after_evaluation(wallet, recipient, amount).policies.get(other) == s.policies.get(other),
{
}

/// Guardians never touch policies or trusted recipients: no guardian or
/// recovery operation changes any stored policy.
pub proof fn law_guardian_operations_never_touch_policies(
    s: EnvView,
    wallet: Seq<u8>,
    actor: Seq<u8>,
    guardians: Seq<Seq<u8>>,
    threshold: u32,
    target_state: AccountState,
)
    ensures
        s.after_set_guardians(wallet, guardians, threshold).policies == s.policies,
        s.after_propose_recovery(wallet, actor, target_state).policies == s.policies,
        s.after_approve_recovery(wallet, actor).policies == s.policies,
        s.after_execute_recovery(wallet).policies == s.policies,
        s.after_cancel_recovery(wallet).policies == s.policies,
{
}

/// The admin is stored once, by `initialize`, and no other operation ever
/// changes it.
pub proof fn law_admin_never_changes(
    s: EnvView,
    wallet: Seq<u8>,
    actor: Seq<u8>,
    recipient: Seq<u8>,
    amount: i128,
    max_no_stepup: i128,
    daily_velocity_cap: i128,
    new_recipient_requires_stepup: bool,
    hourly_velocity_cap: i128,
    trust_decay_seconds: u64,
    guardians: Seq<Seq<u8>>,
    threshold: u32,
    target_state: AccountState,
)
    ensures
        s.after_set_policy(
            wallet,
            max_no_stepup,
            daily_velocity_cap,
            new_recipient_requires_stepup,
            hourly_velocity_cap,
            trust_decay_seconds,
        ).admin == s.admin,
        s.after_add_trusted_recipient(wallet, recipient).admin == s.admin,
        s.after_remove_trusted_recipient(wallet, recipient).admin == s.admin,
        s.after_evaluation(wallet, recipient, amount).admin == s.admin,
        s.after_set_guardians(wallet, guardians, threshold).admin == s.admin,
        s.after_propose_recovery(wallet, actor, target_state).admin == s.admin,
        s.after_approve_recovery(wallet, actor).admin == s.admin,
        s.after_execute_recovery(wallet).admin == s.admin,
        s.after_cancel_recovery(wallet).admin == s.admin,
        (EnvView { flagged: s.flagged.insert(recipient, true), ..s }).admin == s.admin,
        (EnvView { flagged: s.flagged.remove(recipient), ..s }).admin == s.admin,
{
}

impl EnvView {
    /// Every pending recovery proposal targets a state strictly less
    /// restrictive than the one its account is in.
    pub open spec fn pending_recoveries_deescalate(self) -> bool {
        forall|w: Seq<u8>| #[trigger]
            self.recovery_proposals.contains_key(w) ==> self.recovery_proposals[w].target_state.rank()
                < self.account_state(w).rank()
    }
}

/// Recovery only ever moves an account toward less restriction: every
/// operation that creates, changes, executes or withdraws a proposal, or
/// names guardians, keeps every pending proposal strictly de-escalating.
pub proof fn law_pending_recoveries_stay_deescalating(
    s: EnvView,
    wallet: Seq<u8>,
    actor: Seq<u8>,
    guardians: Seq<Seq<u8>>,
    threshold: u32,
    target_state: AccountState,
)
    requires
        s.pending_recoveries_deescalate(),
    ensures
        s.after_set_guardians(wallet, guardians, threshold).pending_recoveries_deescalate(),
        s.propose_recovery_error(wallet, actor, target_state) is None ==> s.after_propose_recovery(
            wallet,
            actor,
            target_state,
        ).pending_recoveries_deescalate(),
        s.approve_recovery_error(wallet, actor) is None ==> s.after_approve_recovery(
            wallet,
            actor,
        ).pending_recoveries_deescalate(),
        s.execute_recovery_error(wallet) is None ==> s.after_execute_recovery(
            wallet,
        ).pending_recoveries_deescalate(),
        s.cancel_recovery_error(wallet) is None ==> s.after_cancel_recovery(
            wallet,
        ).pending_recoveries_deescalate(),
{
}

/// Executing a recovery leaves the account strictly less restricted than it
/// was.
pub proof fn law_executed_recovery_lowers_restriction(s: EnvView, wallet: Seq<u8>)
    requires
        s.pending_recoveries_deescalate(),
        s.execute_recovery_error(wallet) is None,
    ensures
        s.after_execute_recovery(wallet).account_state(wallet).rank() < s.account_state(
            wallet,
        ).rank(),
{
}

/// A recovery executes only once at least `threshold` guardians have
/// approved and the timelock has run out.
pub proof fn law_recovery_needs_threshold_and_timelock(s: EnvView, wallet: Seq<u8>)
    requires
        s.execute_recovery_error(wallet) is None,
    ensures
        s.recovery_proposals[wallet].approvals.len() >= s.guardian_configs[wallet].threshold,
        s.timestamp >= s.recovery_proposals[wallet].proposed_at
            + s.recovery_proposals[wallet].timelock_seconds,
{
}


/// Paying a recipient that is among the wallet's trusted ones refreshes its
/// last payment time to now, whatever the decision: a decayed recipient that
/// was paid after a step-up is trusted again. Every other trusted recipient
/// keeps its time, and a recipient outside the list is not added.
pub proof fn law_evaluation_refreshes_paid_recipient(
    s: EnvView,
    wallet: Seq<u8>,
    recipient: Seq<u8>,
    amount: i128,
)
    requires
        s.policies.contains_key(wallet),
        amount > 0,
    ensures
        s.policies[wallet].trusted_recipients.contains_key(recipient) ==> s.after_evaluation(
            wallet,
            recipient,
            amount,
        ).policies[wallet].trusted_recipients == s.policies[wallet].trusted_recipients.insert(
            recipient,
            s.timestamp,
        ),
        !s.policies[wallet].trusted_recipients.contains_key(recipient) ==> s.after_evaluation(
            wallet,
            recipient,
            amount,
        ).policies[wallet].trusted_recipients == s.policies[wallet].trusted_recipients,
{
}

/// A decayed recipient that is paid (even after a step-up) counts as trusted
/// again for the rest of the decay period: two evaluations relate through the
/// refreshed payment time.
pub proof fn law_paid_recipient_is_trusted_again(
    s: EnvView,
    wallet: Seq<u8>,
    recipient: Seq<u8>,
    amount: i128,
    later: u64,
)
    requires
        s.policies.contains_key(wallet),
        amount > 0,
        s.policies[wallet].trusted_recipients.contains_key(recipient),
        s.timestamp <= later,
        later - s.timestamp <= s.policies[wallet].trust_decay_seconds,
    ensures
        actively_trusted(
            s.after_evaluation(wallet, recipient, amount).policies[wallet],
            recipient,
            later,
        ),
{
}

/// `remove_trusted_recipient` refuses with `RecipientNotTrusted` exactly when
/// the recipient is not in the wallet's list, whatever the ledger time and the
/// decay period; otherwise it removes exactly that recipient.
pub proof fn law_remove_trusted_recipient_exactly_when_listed(
    s: EnvView,
    wallet: Seq<u8>,
    recipient: Seq<u8>,
)
    requires
        s.policies.contains_key(wallet),
    ensures
        s.remove_trusted_recipient_error(wallet, recipient) is None <==> s.policies[wallet].trusted_recipients.contains_key(
            recipient,
        ),
        !s.policies[wallet].trusted_recipients.contains_key(recipient) ==> s.remove_trusted_recipient_error(
            wallet,
            recipient,
        ) == Some(crate::errors::WardenError::RecipientNotTrusted),
        s.policies[wallet].trusted_recipients.contains_key(recipient) ==> s.after_remove_trusted_recipient(
            wallet,
            recipient,
        ).policies[wallet].trusted_recipients == s.policies[wallet].trusted_recipients.remove(
            recipient,
        ),
{
}

/// A proposal starts its timelock when it is proposed: it records the current
/// time, the fixed timelock, its proposer and target, and the proposer's own
/// approval only.
pub proof fn law_proposal_starts_timelock_now(
    s: EnvView,
    wallet: Seq<u8>,
    proposer: Seq<u8>,
    target_state: AccountState,
)
    ensures
        ({
            let p = s.after_propose_recovery(wallet, proposer, target_state).recovery_proposals[wallet];
            &&& s.after_propose_recovery(wallet, proposer, target_state).recovery_proposals.contains_key(
                wallet,
            )
            &&& p.proposed_at == s.timestamp
            &&& p.timelock_seconds == RECOVERY_TIMELOCK_SECONDS
            &&& p.proposer == proposer
            &&& p.target_state == target_state
            &&& p.approvals == seq![proposer]
        }),
{
}

/// Approving only adds the approving guardian: the proposal's proposer,
/// target, start time and timelock stay as they were, so later approvals never
/// restart the timelock.
pub proof fn law_approval_only_adds_the_guardian(s: EnvView, wallet: Seq<u8>, guardian: Seq<u8>)
    requires
        s.approve_recovery_error(wallet, guardian) is None,
    ensures
        ({
            let before = s.recovery_proposals[wallet];
            let after = s.after_approve_recovery(wallet, guardian).recovery_proposals[wallet];
            &&& s.after_approve_recovery(wallet, guardian).recovery_proposals.contains_key(wallet)
            &&& after.proposer == before.proposer
            &&& after.target_state == before.target_state
            &&& after.proposed_at == before.proposed_at
            &&& after.timelock_seconds == before.timelock_seconds
            &&& after.approvals == before.approvals.push(guardian)
        }),
{
}

/// Once enough guardians have approved, a pending proposal executes exactly
/// when its timelock, counted from when it was proposed, has run out.
pub proof fn law_execution_waits_exactly_for_the_timelock(s: EnvView, wallet: Seq<u8>)
    requires
        s.guardian_configs.contains_key(wallet),
        s.recovery_proposals.contains_key(wallet),
        s.recovery_proposals[wallet].approvals.len() >= s.guardian_configs[wallet].threshold,
    ensures
        s.execute_recovery_error(wallet) is None <==> s.timestamp
            >= s.recovery_proposals[wallet].proposed_at
            + s.recovery_proposals[wallet].timelock_seconds,
        s.execute_recovery_error(wallet) is None ==> s.after_execute_recovery(wallet).account_state(
            wallet,
        ) == s.recovery_proposals[wallet].target_state,
{
}

/// With guardians configured, a guardian proposing and nothing pending, a
/// proposal is accepted exactly when its target is strictly less restrictive
/// than the account's current state, any such target included.
pub proof fn law_proposal_accepted_exactly_when_deescalating(
    s: EnvView,
    wallet: Seq<u8>,
    proposer: Seq<u8>,
    target_state: AccountState,
)
    requires
        s.guardian_configs.contains_key(wallet),
        s.guardian_configs[wallet].guardians.contains(proposer),
        !s.recovery_proposals.contains_key(wallet),
    ensures
        s.propose_recovery_error(wallet, proposer, target_state) is None <==> target_state.rank()
            < s.account_state(wallet).rank(),
{
}

/// For an account at `Normal` or `Watch`, every list of at most seven
/// guardians with a threshold between one and their number is accepted and
/// stored as given; and a longer list, a zero threshold or one above the
/// number of guardians is refused as invalid.
pub proof fn law_set_guardians_accepts_every_valid_configuration(
    s: EnvView,
    wallet: Seq<u8>,
    guardians: Seq<Seq<u8>>,
    threshold: u32,
)
    requires
        s.account_state(wallet).rank() <= AccountState::Watch.rank(),
    ensures
        guardians.len() <= MAX_GUARDIANS && 1 <= threshold && threshold <= guardians.len()
            ==> s.set_guardians_error(wallet, guardians.len() as int, threshold) is None
            && s.after_set_guardians(wallet, guardians, threshold).guardian_configs[wallet] == (
        GuardianConfigView { guardians, threshold }),
        guardians.len() > MAX_GUARDIANS || threshold == 0 || threshold > guardians.len() ==> s.set_guardians_error(
            wallet,
            guardians.len() as int,
            threshold,
        ) == Some(crate::errors::WardenError::InvalidGuardianConfig),
{
}


/// The windows that apply now: a wallet with no stored window, or whose stored
/// window started at least a whole period ago, starts afresh (empty, starting
/// now, for a stored window); otherwise the stored window applies unchanged.
pub proof fn law_current_windows(s: EnvView, wallet: Seq<u8>)
    requires
        s.daily_window(wallet).window_start <= s.timestamp,
        s.hourly_window(wallet).window_start <= s.timestamp,
    ensures
        s.daily_velocity.contains_key(wallet) && s.timestamp - s.daily_velocity[wallet].window_start
            < SECONDS_PER_DAY ==> s.current_daily(wallet) == s.daily_velocity[wallet],
        s.daily_velocity.contains_key(wallet) && s.timestamp - s.daily_velocity[wallet].window_start
            >= SECONDS_PER_DAY ==> s.current_daily(wallet) == (VelocityWindow {
            window_start: s.timestamp,
            cumulative_amount: 0,
            tx_count: 0,
        }),
        s.hourly_velocity.contains_key(wallet) && s.timestamp
            - s.hourly_velocity[wallet].window_start < SECONDS_PER_HOUR ==> s.current_hourly(wallet)
            == s.hourly_velocity[wallet],
        s.hourly_velocity.contains_key(wallet) && s.timestamp
            - s.hourly_velocity[wallet].window_start >= SECONDS_PER_HOUR ==> s.current_hourly(wallet)
            == (VelocityWindow { window_start: s.timestamp, cumulative_amount: 0, tx_count: 0 }),
        s.current_daily(wallet).cumulative_amount == 0 || s.daily_velocity.contains_key(wallet),
        s.current_hourly(wallet).cumulative_amount == 0 || s.hourly_velocity.contains_key(wallet),
{
}

/// A transfer is allowed exactly when every rule holds: the recipient is not
/// flagged, it is trusted (last paid no longer ago than the decay period)
/// where the policy asks for that, the amount is within the per-transfer
/// ceiling, and both windows stay within their caps once it is counted. Each
/// step-up reason comes exactly when its rule is the first one broken.
pub proof fn law_decision_follows_the_rules_in_order(
    s: EnvView,
    wallet: Seq<u8>,
    recipient: Seq<u8>,
    amount: i128,
)
    ensures
        ({
            let p = s.policies[wallet];
            let flagged = s.flagged.contains_key(recipient) && s.flagged[recipient];
            let trusted = p.trusted_recipients.contains_key(recipient) && s.timestamp
                - p.trusted_recipients[recipient] <= p.trust_decay_seconds;
            let new_ok = !p.new_recipient_requires_stepup || trusted;
            let amount_ok = amount <= p.max_no_stepup;
            let hourly_ok = s.current_hourly(wallet).cumulative_amount + amount
                <= p.hourly_velocity_cap;
            let daily_ok = s.current_daily(wallet).cumulative_amount + amount
                <= p.daily_velocity_cap;
            let d = s.evaluation(wallet, recipient, amount);
            &&& (d == Decision::Allow) == (!flagged && new_ok && amount_ok && hourly_ok && daily_ok)
            &&& (d == Decision::RequireStepUp(StepUpReason::FlaggedRecipient)) == flagged
            &&& (d == Decision::RequireStepUp(StepUpReason::NewRecipient)) == (!flagged && !new_ok)
            &&& (d == Decision::RequireStepUp(StepUpReason::AmountExceeded)) == (!flagged && new_ok
                && !amount_ok)
            &&& (d == Decision::RequireStepUp(StepUpReason::HourlyVelocityExceeded)) == (!flagged
                && new_ok && amount_ok && !hourly_ok)
            &&& (d == Decision::RequireStepUp(StepUpReason::VelocityExceeded)) == (!flagged && new_ok
                && amount_ok && hourly_ok && !daily_ok)
        }),
{
}

/// After an accepted evaluation both stored windows are the windows that
/// applied, with the amount added to the total and one more transfer
/// counted, starting where those windows started; nothing else about the
/// wallet's velocity changes.
pub proof fn law_evaluation_stores_counted_windows(
    s: EnvView,
    wallet: Seq<u8>,
    recipient: Seq<u8>,
    amount: i128,
)
    requires
        amount > 0,
        s.evaluation_in_range(wallet, amount),
    ensures
        ({
            let a = s.after_evaluation(wallet, recipient, amount);
            &&& a.daily_velocity.contains_key(wallet)
            &&& a.hourly_velocity.contains_key(wallet)
            &&& a.daily_velocity[wallet].window_start == s.current_daily(wallet).window_start
            &&& a.hourly_velocity[wallet].window_start == s.current_hourly(wallet).window_start
            &&& a.daily_velocity.remove(wallet) == s.daily_velocity.remove(wallet)
            &&& a.hourly_velocity.remove(wallet) == s.hourly_velocity.remove(wallet)
            &&& a.timestamp == s.timestamp
        }),
{
    let a = s.after_evaluation(wallet, recipient, amount);
    assert(a.daily_velocity.remove(wallet) =~= s.daily_velocity.remove(wallet));
    assert(a.hourly_velocity.remove(wallet) =~= s.hourly_velocity.remove(wallet));
}

/// `set_policy` refuses exactly a negative per-transfer ceiling, a daily cap
/// below it, a negative hourly cap, or an hourly cap above the daily cap.
pub proof fn law_set_policy_refuses_exactly_inconsistent_limits(
    max_no_stepup: i128,
    daily_velocity_cap: i128,
    hourly_velocity_cap: i128,
)
    ensures
        !policy_params_valid(max_no_stepup, daily_velocity_cap, hourly_velocity_cap) == (
        max_no_stepup < 0 || daily_velocity_cap < max_no_stepup || hourly_velocity_cap < 0
            || hourly_velocity_cap > daily_velocity_cap),
{
}

/// `add_trusted_recipient` refuses with `PolicyNotFound` exactly without a
/// policy and with `RecipientAlreadyTrusted` exactly when the recipient is
/// listed (decayed or not); otherwise it lists the recipient as paid now,
/// records the change time, and keeps every other field and recipient.
pub proof fn law_add_trusted_recipient_exactly_when_unlisted(
    s: EnvView,
    wallet: Seq<u8>,
    recipient: Seq<u8>,
)
    ensures
        !s.policies.contains_key(wallet) ==> s.add_trusted_recipient_error(wallet, recipient)
            == Some(WardenError::PolicyNotFound),
        s.policies.contains_key(wallet) ==> (s.add_trusted_recipient_error(wallet, recipient)
            is None) == !s.policies[wallet].trusted_recipients.contains_key(recipient),
        s.policies.contains_key(wallet) && s.policies[wallet].trusted_recipients.contains_key(
            recipient,
        ) ==> s.add_trusted_recipient_error(wallet, recipient) == Some(
            WardenError::RecipientAlreadyTrusted,
        ),
        s.add_trusted_recipient_error(wallet, recipient) is None ==> ({
            let before = s.policies[wallet];
            let after = s.after_add_trusted_recipient(wallet, recipient).policies[wallet];
            &&& after.trusted_recipients == before.trusted_recipients.insert(recipient, s.timestamp)
            &&& after.updated_at == s.timestamp
            &&& after.owner == before.owner
            &&& after.max_no_stepup == before.max_no_stepup
            &&& after.daily_velocity_cap == before.daily_velocity_cap
            &&& after.hourly_velocity_cap == before.hourly_velocity_cap
            &&& after.new_recipient_requires_stepup == before.new_recipient_requires_stepup
            &&& after.trust_decay_seconds == before.trust_decay_seconds
        }),
{
}

/// The admin gate and the registry: flagging is accepted exactly for the
/// stored admin and an address not yet flagged, unflagging exactly for the
/// stored admin and a flagged address; without a stored admin both say
/// `NotInitialized`, for anyone else `NotAdmin`.
pub proof fn law_registry_gate(s: EnvView, caller: Seq<u8>, address: Seq<u8>)
    ensures
        (s.add_flagged_address_error(caller, address) is None) == (s.admin == Some(caller)
            && !(s.flagged.contains_key(address) && s.flagged[address])),
        (s.remove_flagged_address_error(caller, address) is None) == (s.admin == Some(caller)
            && s.flagged.contains_key(address) && s.flagged[address]),
        s.admin is None ==> s.add_flagged_address_error(caller, address) == Some(
            WardenError::NotInitialized,
        ) && s.remove_flagged_address_error(caller, address) == Some(WardenError::NotInitialized),
        s.admin is Some && s.admin != Some(caller) ==> s.add_flagged_address_error(caller, address)
            == Some(WardenError::NotAdmin) && s.remove_flagged_address_error(caller, address)
            == Some(WardenError::NotAdmin),
{
}

/// Guardians can be set exactly while the account is `Normal` or `Watch`;
/// in a worse state the answer is `GuardianConfigLocked`, whatever the list.
pub proof fn law_guardians_locked_exactly_when_restricted(
    s: EnvView,
    wallet: Seq<u8>,
    n: int,
    threshold: u32,
)
    ensures
        (s.set_guardians_error(wallet, n, threshold) == Some(WardenError::GuardianConfigLocked)) == (
        s.account_state(wallet) == AccountState::Restricted || s.account_state(wallet)
            == AccountState::Challenged || s.account_state(wallet) == AccountState::Frozen),
{
}

/// Executing moves the account to the proposal's target and clears the
/// proposal; cancelling clears the proposal and leaves the account's state,
/// guardians and every other wallet's proposal as they were.
pub proof fn law_execute_and_cancel_effects(s: EnvView, wallet: Seq<u8>, other: Seq<u8>)
    requires
        s.recovery_proposals.contains_key(wallet),
        other != wallet,
    ensures
        !s.after_execute_recovery(wallet).recovery_proposals.contains_key(wallet),
        s.after_execute_recovery(wallet).account_state(wallet)
            == s.recovery_proposals[wallet].target_state,
        s.after_execute_recovery(wallet).account_state(other) == s.account_state(other),
        s.after_execute_recovery(wallet).recovery_proposals.get(other)
            == s.recovery_proposals.get(other),
        s.after_execute_recovery(wallet).guardian_configs == s.guardian_configs,
        !s.after_cancel_recovery(wallet).recovery_proposals.contains_key(wallet),
        s.after_cancel_recovery(wallet).account_states == s.account_states,
        s.after_cancel_recovery(wallet).guardian_configs == s.guardian_configs,
        s.after_cancel_recovery(wallet).recovery_proposals.get(other)
            == s.recovery_proposals.get(other),
        s.cancel_recovery_error(wallet) is None,
{
}

/// Approvals are accepted exactly from a guardian that has not yet approved
/// the pending proposal.
pub proof fn law_approval_accepted_exactly_from_new_guardian(
    s: EnvView,
    wallet: Seq<u8>,
    guardian: Seq<u8>,
)
    requires
        s.guardian_configs.contains_key(wallet),
        s.recovery_proposals.contains_key(wallet),
    ensures
        (s.approve_recovery_error(wallet, guardian) is None) == (
        s.guardian_configs[wallet].guardians.contains(guardian)
            && !s.recovery_proposals[wallet].approvals.contains(guardian)),
{
}

} // verus!
