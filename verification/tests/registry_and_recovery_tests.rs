use warden::storage;
use warden::{
    AccountState, Address, ContractEvent, Decision, Env, StepUpReason, WardenContract, WardenError,
};

fn account(n: u32) -> Address {
    Address::from_bytes(format!("G{:055}", n).into_bytes())
}

fn initialized() -> (Env, Address) {
    let mut env = Env::new(1_000);
    let admin = account(1);
    WardenContract::initialize(&mut env, admin.clone(), account(2)).unwrap();
    (env, admin)
}

fn with_guardians(state: AccountState) -> (Env, Address, Vec<Address>) {
    let mut env = Env::new(1_000);
    let wallet = account(10);
    let guardians = vec![account(11), account(12), account(13)];
    WardenContract::set_guardians(&mut env, wallet.clone(), guardians.clone(), 2).unwrap();
    storage::write_account_state(&mut env, &wallet, &state);
    (env, wallet, guardians)
}

#[test]
fn address_equality_follows_bytes() {
    assert_eq!(account(7), account(7));
    assert_ne!(account(7), account(8));
    assert!(account(7).same_as(&account(7).clone()));
    assert!(!Address::from_bytes(vec![1, 2]).same_as(&Address::from_bytes(vec![1, 2, 3])));
}

#[test]
fn add_flagged_address_fails_before_initialize() {
    let mut env = Env::new(0);
    let result = WardenContract::add_flagged_address(&mut env, account(1), account(3));
    assert_eq!(result, Err(WardenError::NotInitialized));
    let result = WardenContract::remove_flagged_address(&mut env, account(1), account(3));
    assert_eq!(result, Err(WardenError::NotInitialized));
}

#[test]
fn add_flagged_address_rejects_other_caller() {
    let (mut env, _admin) = initialized();
    let result = WardenContract::add_flagged_address(&mut env, account(9), account(3));
    assert_eq!(result, Err(WardenError::NotAdmin));
    assert!(!storage::is_address_flagged(&env, &account(3)));
    let result = WardenContract::remove_flagged_address(&mut env, account(9), account(3));
    assert_eq!(result, Err(WardenError::NotAdmin));
}

#[test]
fn flag_and_unflag_address() {
    let (mut env, admin) = initialized();
    let bad = account(3);
    WardenContract::add_flagged_address(&mut env, admin.clone(), bad.clone()).unwrap();
    assert!(storage::is_address_flagged(&env, &bad));
    assert_eq!(
        WardenContract::add_flagged_address(&mut env, admin.clone(), bad.clone()),
        Err(WardenError::AddressAlreadyFlagged)
    );
    WardenContract::remove_flagged_address(&mut env, admin.clone(), bad.clone()).unwrap();
    assert!(!storage::is_address_flagged(&env, &bad));
    assert_eq!(
        WardenContract::remove_flagged_address(&mut env, admin.clone(), bad.clone()),
        Err(WardenError::AddressNotFlagged)
    );
    assert_eq!(
        env.events,
        vec![
            ContractEvent::AddressFlagged { admin: admin.clone(), address: bad.clone() },
            ContractEvent::AddressUnflagged { admin, address: bad },
        ]
    );
}

#[test]
fn evaluate_flagged_recipient_overrides_trust_and_headroom() {
    let (mut env, admin) = initialized();
    let wallet = account(4);
    let recipient = account(5);
    WardenContract::set_policy(&mut env, wallet.clone(), 1_000, 5_000, false, 5_000, 100).unwrap();
    WardenContract::add_trusted_recipient(&mut env, wallet.clone(), recipient.clone()).unwrap();
    WardenContract::add_flagged_address(&mut env, admin, recipient.clone()).unwrap();

    let decision = WardenContract::evaluate(&mut env, wallet.clone(), recipient.clone(), 1).unwrap();
    assert_eq!(decision, Decision::RequireStepUp(StepUpReason::FlaggedRecipient));
    // The transfer still counts.
    assert_eq!(storage::read_hourly_velocity(&env, &wallet).unwrap().cumulative_amount, 1);
    assert_eq!(
        env.events.last(),
        Some(&ContractEvent::StepupRequired {
            wallet,
            recipient,
            amount: 1,
            reason: StepUpReason::FlaggedRecipient,
        })
    );
}

#[test]
fn evaluate_flagged_check_comes_after_policy_lookup() {
    let (mut env, admin) = initialized();
    WardenContract::add_flagged_address(&mut env, admin, account(5)).unwrap();
    let result = WardenContract::evaluate(&mut env, account(4), account(5), 10);
    assert_eq!(result, Err(WardenError::PolicyNotFound));
}

#[test]
fn evaluate_refreshes_last_paid_of_trusted_recipient() {
    let mut env = Env::new(500);
    let wallet = account(4);
    let recipient = account(5);
    WardenContract::set_policy(&mut env, wallet.clone(), 1_000, 5_000, true, 5_000, 100).unwrap();
    WardenContract::add_trusted_recipient(&mut env, wallet.clone(), recipient.clone()).unwrap();
    env.set_timestamp(590);
    assert_eq!(
        WardenContract::evaluate(&mut env, wallet.clone(), recipient.clone(), 10).unwrap(),
        Decision::Allow
    );
    let policy = storage::read_policy(&env, &wallet).unwrap();
    assert_eq!(*policy.trusted_recipients.get(&recipient).unwrap(), 590);
    // Evaluating does not count as a configuration change.
    assert_eq!(policy.updated_at, 500);
    // 150 seconds after adding, but only 60 after the last payment.
    env.set_timestamp(650);
    assert_eq!(
        WardenContract::evaluate(&mut env, wallet, recipient, 10).unwrap(),
        Decision::Allow
    );
}

#[test]
fn evaluate_reports_hourly_when_both_windows_exceeded() {
    let mut env = Env::new(0);
    let wallet = account(4);
    WardenContract::set_policy(&mut env, wallet.clone(), 1_000, 1_000, false, 500, 10).unwrap();
    WardenContract::evaluate(&mut env, wallet.clone(), account(5), 1_000).unwrap();
    let decision = WardenContract::evaluate(&mut env, wallet, account(5), 1_000).unwrap();
    assert_eq!(decision, Decision::RequireStepUp(StepUpReason::HourlyVelocityExceeded));
}

#[test]
fn evaluate_publishes_allowed_event_and_counts_both_windows() {
    let mut env = Env::new(7_200);
    let wallet = account(4);
    let recipient = account(5);
    WardenContract::set_policy(&mut env, wallet.clone(), 1_000, 5_000, false, 5_000, 10).unwrap();
    WardenContract::evaluate(&mut env, wallet.clone(), recipient.clone(), 250).unwrap();
    assert_eq!(
        env.events.last(),
        Some(&ContractEvent::EvaluationAllowed { wallet: wallet.clone(), recipient, amount: 250 })
    );
    let daily = storage::read_daily_velocity(&env, &wallet).unwrap();
    let hourly = storage::read_hourly_velocity(&env, &wallet).unwrap();
    // The zeroed daily window started at time 0 and has not run out yet; the
    // hourly one has, so it starts afresh now.
    assert_eq!((daily.window_start, daily.cumulative_amount, daily.tx_count), (0, 250, 1));
    assert_eq!((hourly.window_start, hourly.cumulative_amount, hourly.tx_count), (7_200, 250, 1));
}

#[test]
fn evaluation_in_range_detects_overflow() {
    let mut env = Env::new(0);
    let wallet = account(4);
    WardenContract::set_policy(&mut env, wallet.clone(), 10, 10, false, 10, 10).unwrap();
    assert!(WardenContract::evaluation_in_range(&env, &wallet, i128::MAX));
    WardenContract::evaluate(&mut env, wallet.clone(), account(5), 5).unwrap();
    assert!(!WardenContract::evaluation_in_range(&env, &wallet, i128::MAX));
    assert!(WardenContract::evaluation_in_range(&env, &wallet, i128::MAX - 5));
}

#[test]
fn set_guardians_validates_configuration() {
    let mut env = Env::new(0);
    let wallet = account(10);
    let eight: Vec<Address> = (20..28).map(account).collect();
    assert_eq!(
        WardenContract::set_guardians(&mut env, wallet.clone(), eight, 1),
        Err(WardenError::InvalidGuardianConfig)
    );
    assert_eq!(
        WardenContract::set_guardians(&mut env, wallet.clone(), vec![account(20)], 0),
        Err(WardenError::InvalidGuardianConfig)
    );
    assert_eq!(
        WardenContract::set_guardians(&mut env, wallet.clone(), vec![account(20)], 2),
        Err(WardenError::InvalidGuardianConfig)
    );
    let seven: Vec<Address> = (20..27).map(account).collect();
    WardenContract::set_guardians(&mut env, wallet.clone(), seven.clone(), 7).unwrap();
    let config = storage::read_guardian_config(&env, &wallet).unwrap();
    assert_eq!(config.guardians, seven);
    assert_eq!(config.threshold, 7);
    assert_eq!(
        env.events,
        vec![ContractEvent::GuardiansSet { wallet, guardians: seven, threshold: 7 }]
    );
}

#[test]
fn set_guardians_locked_while_restricted() {
    let mut env = Env::new(0);
    let wallet = account(10);
    storage::write_account_state(&mut env, &wallet, &AccountState::Watch);
    WardenContract::set_guardians(&mut env, wallet.clone(), vec![account(11)], 1).unwrap();
    storage::write_account_state(&mut env, &wallet, &AccountState::Restricted);
    assert_eq!(
        WardenContract::set_guardians(&mut env, wallet, vec![account(12)], 1),
        Err(WardenError::GuardianConfigLocked)
    );
}

#[test]
fn propose_recovery_checks_in_order() {
    let mut env = Env::new(0);
    let wallet = account(10);
    assert_eq!(
        WardenContract::propose_recovery(&mut env, wallet.clone(), account(11), AccountState::Normal),
        Err(WardenError::GuardiansNotConfigured)
    );
    let (mut env, wallet, guardians) = with_guardians(AccountState::Frozen);
    assert_eq!(
        WardenContract::propose_recovery(&mut env, wallet.clone(), account(99), AccountState::Normal),
        Err(WardenError::NotGuardian)
    );
    assert_eq!(
        WardenContract::propose_recovery(
            &mut env,
            wallet.clone(),
            guardians[0].clone(),
            AccountState::Frozen
        ),
        Err(WardenError::InvalidTargetState)
    );
    WardenContract::propose_recovery(&mut env, wallet.clone(), guardians[0].clone(), AccountState::Watch)
        .unwrap();
    assert_eq!(
        WardenContract::propose_recovery(
            &mut env,
            wallet.clone(),
            guardians[1].clone(),
            AccountState::Normal
        ),
        Err(WardenError::RecoveryAlreadyProposed)
    );
    let proposal = storage::read_recovery_proposal(&env, &wallet).unwrap();
    assert_eq!(proposal.proposer, guardians[0]);
    assert_eq!(proposal.approvals, vec![guardians[0].clone()]);
    assert_eq!(proposal.proposed_at, 1_000);
    assert_eq!(proposal.timelock_seconds, 172_800);
    assert_eq!(proposal.target_state, AccountState::Watch);
}

#[test]
fn approve_recovery_checks_in_order() {
    let mut env = Env::new(0);
    assert_eq!(
        WardenContract::approve_recovery(&mut env, account(10), account(11)),
        Err(WardenError::GuardiansNotConfigured)
    );
    let (mut env, wallet, guardians) = with_guardians(AccountState::Challenged);
    assert_eq!(
        WardenContract::approve_recovery(&mut env, wallet.clone(), account(99)),
        Err(WardenError::NotGuardian)
    );
    assert_eq!(
        WardenContract::approve_recovery(&mut env, wallet.clone(), guardians[1].clone()),
        Err(WardenError::RecoveryNotFound)
    );
    WardenContract::propose_recovery(&mut env, wallet.clone(), guardians[0].clone(), AccountState::Normal)
        .unwrap();
    assert_eq!(
        WardenContract::approve_recovery(&mut env, wallet.clone(), guardians[0].clone()),
        Err(WardenError::AlreadyApproved)
    );
    WardenContract::approve_recovery(&mut env, wallet.clone(), guardians[1].clone()).unwrap();
    assert_eq!(
        env.events.last(),
        Some(&ContractEvent::RecoveryApproved {
            wallet,
            guardian: guardians[1].clone(),
            approvals_count: 2,
        })
    );
}

#[test]
fn execute_recovery_needs_threshold_then_timelock() {
    let mut env = Env::new(0);
    assert_eq!(
        WardenContract::execute_recovery(&mut env, account(10)),
        Err(WardenError::GuardiansNotConfigured)
    );
    let (mut env, wallet, guardians) = with_guardians(AccountState::Frozen);
    assert_eq!(
        WardenContract::execute_recovery(&mut env, wallet.clone()),
        Err(WardenError::RecoveryNotFound)
    );
    WardenContract::propose_recovery(&mut env, wallet.clone(), guardians[0].clone(), AccountState::Normal)
        .unwrap();
    assert_eq!(
        WardenContract::execute_recovery(&mut env, wallet.clone()),
        Err(WardenError::InsufficientApprovals)
    );
    WardenContract::approve_recovery(&mut env, wallet.clone(), guardians[2].clone()).unwrap();
    env.set_timestamp(1_000 + 172_799);
    assert_eq!(
        WardenContract::execute_recovery(&mut env, wallet.clone()),
        Err(WardenError::TimelockNotElapsed)
    );
    env.set_timestamp(1_000 + 172_800);
    WardenContract::execute_recovery(&mut env, wallet.clone()).unwrap();
    assert_eq!(storage::read_account_state(&env, &wallet), AccountState::Normal);
    assert!(storage::read_recovery_proposal(&env, &wallet).is_none());
    assert_eq!(
        env.events.last(),
        Some(&ContractEvent::RecoveryExecuted { wallet, target_state: AccountState::Normal })
    );
}

#[test]
fn cancel_recovery_withdraws_proposal() {
    let (mut env, wallet, guardians) = with_guardians(AccountState::Restricted);
    assert_eq!(
        WardenContract::cancel_recovery(&mut env, wallet.clone()),
        Err(WardenError::RecoveryNotFound)
    );
    WardenContract::propose_recovery(&mut env, wallet.clone(), guardians[1].clone(), AccountState::Watch)
        .unwrap();
    WardenContract::cancel_recovery(&mut env, wallet.clone()).unwrap();
    assert!(storage::read_recovery_proposal(&env, &wallet).is_none());
    assert_eq!(storage::read_account_state(&env, &wallet), AccountState::Restricted);
    assert_eq!(
        env.events.last(),
        Some(&ContractEvent::RecoveryCancelled {
            wallet,
            proposer: guardians[1].clone(),
            target_state: AccountState::Watch,
        })
    );
}

#[test]
fn account_state_defaults_to_normal_and_ranks_in_order() {
    let env = Env::new(0);
    assert_eq!(storage::read_account_state(&env, &account(3)), AccountState::Normal);
    let states = [
        AccountState::Normal,
        AccountState::Watch,
        AccountState::Restricted,
        AccountState::Challenged,
        AccountState::Frozen,
    ];
    for (i, s) in states.iter().enumerate() {
        assert_eq!(s.restrictiveness() as usize, i);
    }
}

#[test]
fn remove_after_add_restores_trusted_recipients() {
    let mut env = Env::new(0);
    let wallet = account(4);
    let kept = account(5);
    let added = account(6);
    WardenContract::set_policy(&mut env, wallet.clone(), 1, 1, true, 1, 1).unwrap();
    WardenContract::add_trusted_recipient(&mut env, wallet.clone(), kept.clone()).unwrap();
    env.set_timestamp(30);
    WardenContract::add_trusted_recipient(&mut env, wallet.clone(), added.clone()).unwrap();
    WardenContract::remove_trusted_recipient(&mut env, wallet.clone(), added.clone()).unwrap();
    let policy = WardenContract::get_policy(&env, wallet).unwrap();
    assert_eq!(policy.trusted_recipients.len(), 1);
    assert_eq!(policy.trusted_recipients.get(&kept), Some(&0));
    assert!(!policy.trusted_recipients.contains_key(&added));
    assert_eq!(policy.updated_at, 30);
}

fn policy_summary(env: &Env, wallet: &Address) -> (i128, i128, i128, bool, u64, u64, usize) {
    let p = WardenContract::get_policy(env, wallet.clone()).unwrap();
    (
        p.max_no_stepup,
        p.daily_velocity_cap,
        p.hourly_velocity_cap,
        p.new_recipient_requires_stepup,
        p.trust_decay_seconds,
        p.updated_at,
        p.trusted_recipients.len(),
    )
}

#[test]
fn policy_operations_leave_other_wallets_alone() {
    let mut env = Env::new(5);
    let mine = account(4);
    let other = account(6);
    let recipient = account(7);
    WardenContract::set_policy(&mut env, other.clone(), 10, 20, true, 15, 30).unwrap();
    WardenContract::add_trusted_recipient(&mut env, other.clone(), recipient.clone()).unwrap();
    let before = policy_summary(&env, &other);
    env.set_timestamp(50);
    WardenContract::set_policy(&mut env, mine.clone(), 1, 2, false, 2, 3).unwrap();
    WardenContract::add_trusted_recipient(&mut env, mine.clone(), recipient.clone()).unwrap();
    WardenContract::evaluate(&mut env, mine.clone(), recipient.clone(), 1).unwrap();
    WardenContract::remove_trusted_recipient(&mut env, mine, recipient.clone()).unwrap();
    assert_eq!(policy_summary(&env, &other), before);
    let p = WardenContract::get_policy(&env, other).unwrap();
    assert_eq!(p.trusted_recipients.get(&recipient), Some(&5));
}

#[test]
fn admin_survives_every_other_operation() {
    let (mut env, admin) = initialized();
    let (wallet, guardian) = (account(4), account(5));
    WardenContract::set_policy(&mut env, wallet.clone(), 1, 2, false, 2, 3).unwrap();
    WardenContract::add_flagged_address(&mut env, admin.clone(), account(8)).unwrap();
    WardenContract::set_guardians(&mut env, wallet.clone(), vec![guardian.clone()], 1).unwrap();
    storage::write_account_state(&mut env, &wallet, &AccountState::Watch);
    WardenContract::propose_recovery(&mut env, wallet.clone(), guardian, AccountState::Normal).unwrap();
    WardenContract::cancel_recovery(&mut env, wallet).unwrap();
    assert_eq!(
        WardenContract::initialize(&mut env, account(9), account(9)),
        Err(WardenError::AlreadyInitialized)
    );
    assert_eq!(env.admin, Some(admin.clone()));
    assert_eq!(env.reference_asset, Some(account(2)));
}

#[test]
fn guardian_operations_leave_policies_alone() {
    let (mut env, wallet, guardians) = with_guardians(AccountState::Frozen);
    WardenContract::set_policy(&mut env, wallet.clone(), 1, 2, true, 2, 3).unwrap();
    WardenContract::add_trusted_recipient(&mut env, wallet.clone(), account(30)).unwrap();
    let before = policy_summary(&env, &wallet);
    WardenContract::propose_recovery(&mut env, wallet.clone(), guardians[0].clone(), AccountState::Watch)
        .unwrap();
    WardenContract::approve_recovery(&mut env, wallet.clone(), guardians[1].clone()).unwrap();
    env.set_timestamp(1_000 + 172_800);
    WardenContract::execute_recovery(&mut env, wallet.clone()).unwrap();
    assert_eq!(storage::read_account_state(&env, &wallet), AccountState::Watch);
    assert_eq!(policy_summary(&env, &wallet), before);
}
