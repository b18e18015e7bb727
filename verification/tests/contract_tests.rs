use warden::storage;
use warden::{Address, ContractEvent, Decision, Env, StepUpReason, WardenContract, WardenError};

struct Setup {
    env: Env,
    admin: Address,
    reference_asset: Address,
    next: u32,
}

impl Setup {
    fn generate(&mut self) -> Address {
        self.next += 1;
        Address::from_bytes(format!("G{:055}", self.next).into_bytes())
    }
}

fn setup() -> Setup {
    let admin = Address::from_bytes(format!("G{:055}", 1).into_bytes());
    let reference_asset = Address::from_bytes(format!("C{:055}", 2).into_bytes());
    Setup { env: Env::new(0), admin, reference_asset, next: 2 }
}

#[test]
fn initialize_succeeds_on_first_call() {
    let mut s = setup();
    WardenContract::initialize(&mut s.env, s.admin.clone(), s.reference_asset.clone()).unwrap();
}

#[test]
fn initialize_fails_when_already_initialized() {
    let mut s = setup();
    WardenContract::initialize(&mut s.env, s.admin.clone(), s.reference_asset.clone()).unwrap();
    let result = WardenContract::initialize(&mut s.env, s.admin.clone(), s.reference_asset.clone());
    assert_eq!(result, Err(WardenError::AlreadyInitialized));
}

#[test]
fn set_policy_creates_new_policy() {
    let mut s = setup();
    let wallet = s.generate();
    WardenContract::set_policy(&mut s.env, wallet.clone(), 1_000, 5_000, true, 5_000, 999_999_999)
        .unwrap();

    let policy = storage::read_policy(&s.env, &wallet).expect("policy should exist after set_policy");

    assert_eq!(policy.owner, wallet);
    assert_eq!(policy.max_no_stepup, 1_000);
    assert_eq!(policy.daily_velocity_cap, 5_000);
    assert_eq!(policy.hourly_velocity_cap, 5_000);
    assert!(policy.new_recipient_requires_stepup);
    assert_eq!(policy.trusted_recipients.len(), 0);
}

#[test]
fn set_policy_rejects_hourly_velocity_cap_above_daily_cap() {
    let mut s = setup();
    let wallet = s.generate();
    let result =
        WardenContract::set_policy(&mut s.env, wallet, 1_000, 5_000, true, 6_000, 999_999_999);
    assert_eq!(result, Err(WardenError::InvalidPolicyParams));
}

#[test]
fn set_policy_updates_existing_policy_without_touching_trusted_recipients() {
    let mut s = setup();
    let wallet = s.generate();
    let recipient = s.generate();

    WardenContract::set_policy(&mut s.env, wallet.clone(), 1_000, 5_000, true, 5_000, 999_999_999)
        .unwrap();

    // Seed a trusted recipient directly through the storage layer: this test
    // only needs to show that set_policy leaves trusted_recipients untouched.
    let mut policy = storage::read_policy(&s.env, &wallet).unwrap();
    policy.trusted_recipients.set(recipient.clone(), 42);
    storage::write_policy(&mut s.env, &wallet, &policy);

    WardenContract::set_policy(&mut s.env, wallet.clone(), 2_000, 9_000, false, 9_000, 999_999_999)
        .unwrap();

    let policy = storage::read_policy(&s.env, &wallet).expect("policy should exist after update");

    assert_eq!(policy.max_no_stepup, 2_000);
    assert_eq!(policy.daily_velocity_cap, 9_000);
    assert!(!policy.new_recipient_requires_stepup);
    assert_eq!(policy.trusted_recipients.len(), 1);
    assert_eq!(*policy.trusted_recipients.get(&recipient).unwrap(), 42);
}

#[test]
fn set_policy_rejects_negative_max_no_stepup() {
    let mut s = setup();
    let wallet = s.generate();
    let result = WardenContract::set_policy(&mut s.env, wallet, -1, 5_000, true, 5_000, 999_999_999);
    assert_eq!(result, Err(WardenError::InvalidPolicyParams));
}

#[test]
fn set_policy_rejects_velocity_cap_below_max_no_stepup() {
    let mut s = setup();
    let wallet = s.generate();
    let result =
        WardenContract::set_policy(&mut s.env, wallet, 5_000, 1_000, true, 1_000, 999_999_999);
    assert_eq!(result, Err(WardenError::InvalidPolicyParams));
}

#[test]
fn add_trusted_recipient_succeeds() {
    let mut s = setup();
    let wallet = s.generate();
    let recipient = s.generate();

    WardenContract::set_policy(&mut s.env, wallet.clone(), 1_000, 5_000, true, 5_000, 999_999_999)
        .unwrap();

    let before = s.env.timestamp;
    WardenContract::add_trusted_recipient(&mut s.env, wallet.clone(), recipient.clone()).unwrap();

    let policy = storage::read_policy(&s.env, &wallet).unwrap();

    assert_eq!(policy.trusted_recipients.len(), 1);
    assert_eq!(
        *policy.trusted_recipients.get(&recipient).unwrap(),
        before,
        "last_paid_at should be set to the ledger time it was added"
    );
}

#[test]
fn add_trusted_recipient_fails_when_already_trusted() {
    let mut s = setup();
    let wallet = s.generate();
    let recipient = s.generate();

    WardenContract::set_policy(&mut s.env, wallet.clone(), 1_000, 5_000, true, 5_000, 999_999_999)
        .unwrap();
    WardenContract::add_trusted_recipient(&mut s.env, wallet.clone(), recipient.clone()).unwrap();

    let result = WardenContract::add_trusted_recipient(&mut s.env, wallet, recipient);
    assert_eq!(result, Err(WardenError::RecipientAlreadyTrusted));
}

#[test]
fn add_trusted_recipient_fails_when_no_policy() {
    let mut s = setup();
    let wallet = s.generate();
    let recipient = s.generate();

    let result = WardenContract::add_trusted_recipient(&mut s.env, wallet, recipient);
    assert_eq!(result, Err(WardenError::PolicyNotFound));
}

#[test]
fn remove_trusted_recipient_succeeds() {
    let mut s = setup();
    let wallet = s.generate();
    let recipient = s.generate();

    WardenContract::set_policy(&mut s.env, wallet.clone(), 1_000, 5_000, true, 5_000, 999_999_999)
        .unwrap();
    WardenContract::add_trusted_recipient(&mut s.env, wallet.clone(), recipient.clone()).unwrap();
    WardenContract::remove_trusted_recipient(&mut s.env, wallet.clone(), recipient).unwrap();

    let policy = storage::read_policy(&s.env, &wallet).unwrap();

    assert_eq!(policy.trusted_recipients.len(), 0);
}

#[test]
fn remove_trusted_recipient_fails_when_not_trusted() {
    let mut s = setup();
    let wallet = s.generate();
    let recipient = s.generate();

    WardenContract::set_policy(&mut s.env, wallet.clone(), 1_000, 5_000, true, 5_000, 999_999_999)
        .unwrap();

    let result = WardenContract::remove_trusted_recipient(&mut s.env, wallet, recipient);
    assert_eq!(result, Err(WardenError::RecipientNotTrusted));
}

#[test]
fn set_policy_emits_policy_set_event_with_exact_topic_and_data_shape() {
    let mut s = setup();
    let wallet = s.generate();

    WardenContract::set_policy(&mut s.env, wallet.clone(), 1_000i128, 5_000i128, true, 5_000i128, 999_999_999)
        .unwrap();

    assert_eq!(
        s.env.events,
        vec![ContractEvent::PolicySet {
            wallet: wallet.clone(),
            max_no_stepup: 1_000i128,
            daily_velocity_cap: 5_000i128,
            hourly_velocity_cap: 5_000i128,
            new_recipient_requires_stepup: true,
            trust_decay_seconds: 999_999_999u64,
        }]
    );
}

#[test]
fn evaluate_allows_when_under_thresholds() {
    let mut s = setup();
    let wallet = s.generate();
    let recipient = s.generate();

    WardenContract::set_policy(&mut s.env, wallet.clone(), 1_000, 5_000, false, 5_000, 999_999_999)
        .unwrap();

    let decision = WardenContract::evaluate(&mut s.env, wallet, recipient, 500).unwrap();
    assert_eq!(decision, Decision::Allow);
}

#[test]
fn evaluate_requires_stepup_for_new_recipient() {
    let mut s = setup();
    let wallet = s.generate();
    let recipient = s.generate();

    WardenContract::set_policy(&mut s.env, wallet.clone(), 1_000, 5_000, true, 5_000, 999_999_999)
        .unwrap();

    let decision = WardenContract::evaluate(&mut s.env, wallet, recipient, 500).unwrap();
    assert_eq!(decision, Decision::RequireStepUp(StepUpReason::NewRecipient));
}

#[test]
fn evaluate_requires_stepup_when_amount_exceeds_max() {
    let mut s = setup();
    let wallet = s.generate();
    let recipient = s.generate();

    WardenContract::set_policy(&mut s.env, wallet.clone(), 1_000, 5_000, false, 5_000, 999_999_999)
        .unwrap();

    let decision = WardenContract::evaluate(&mut s.env, wallet, recipient, 1_500).unwrap();
    assert_eq!(decision, Decision::RequireStepUp(StepUpReason::AmountExceeded));
}

#[test]
fn evaluate_requires_stepup_when_velocity_cap_exceeded() {
    let mut s = setup();
    let wallet = s.generate();
    let recipient = s.generate();

    WardenContract::set_policy(&mut s.env, wallet.clone(), 1_000, 1_500, false, 1_500, 999_999_999)
        .unwrap();

    // First transfer: under max_no_stepup and under the daily cap -> Allow.
    let start = s.env.timestamp;
    let first = WardenContract::evaluate(&mut s.env, wallet.clone(), recipient.clone(), 1_000).unwrap();
    assert_eq!(first, Decision::Allow);

    // Past the hourly window's reset but well within the daily window's, so
    // only the daily cap is in play.
    s.env.set_timestamp(start + 3_601);

    // 600 fits the reset hourly window, but 1000 + 600 exceeds the daily cap.
    let second = WardenContract::evaluate(&mut s.env, wallet, recipient, 600).unwrap();
    assert_eq!(second, Decision::RequireStepUp(StepUpReason::VelocityExceeded));
}

#[test]
fn evaluate_velocity_window_resets_after_24h() {
    let mut s = setup();
    let wallet = s.generate();
    let recipient = s.generate();

    WardenContract::set_policy(&mut s.env, wallet.clone(), 1_000, 1_000, false, 1_000, 999_999_999)
        .unwrap();

    let start = s.env.timestamp;

    let first = WardenContract::evaluate(&mut s.env, wallet.clone(), recipient.clone(), 1_000).unwrap();
    assert_eq!(first, Decision::Allow);

    s.env.set_timestamp(start + 3_601);

    let blocked = WardenContract::evaluate(&mut s.env, wallet.clone(), recipient.clone(), 1_000).unwrap();
    assert_eq!(blocked, Decision::RequireStepUp(StepUpReason::VelocityExceeded));

    // A full day past the original window start: the daily window resets.
    s.env.set_timestamp(start + 86_400);

    let after_reset = WardenContract::evaluate(&mut s.env, wallet, recipient, 1_000).unwrap();
    assert_eq!(after_reset, Decision::Allow);
}

#[test]
fn evaluate_velocity_accumulates_even_when_stepup_required() {
    let mut s = setup();
    let wallet = s.generate();
    let recipient = s.generate();

    WardenContract::set_policy(&mut s.env, wallet.clone(), 1_000, 5_000, false, 5_000, 999_999_999)
        .unwrap();

    // Over max_no_stepup, so it needs step-up...
    let decision = WardenContract::evaluate(&mut s.env, wallet.clone(), recipient, 2_000).unwrap();
    assert_eq!(decision, Decision::RequireStepUp(StepUpReason::AmountExceeded));

    // ...but the velocity window still records the full amount.
    let window = storage::read_daily_velocity(&s.env, &wallet).unwrap();
    assert_eq!(window.cumulative_amount, 2_000);
    assert_eq!(window.tx_count, 1);
}

#[test]
fn evaluate_fails_when_no_policy() {
    let mut s = setup();
    let wallet = s.generate();
    let recipient = s.generate();

    let result = WardenContract::evaluate(&mut s.env, wallet, recipient, 100);
    assert_eq!(result, Err(WardenError::PolicyNotFound));
}

#[test]
fn evaluate_fails_when_amount_not_positive() {
    let mut s = setup();
    let wallet = s.generate();
    let recipient = s.generate();

    WardenContract::set_policy(&mut s.env, wallet.clone(), 1_000, 5_000, false, 5_000, 999_999_999)
        .unwrap();

    let zero_result = WardenContract::evaluate(&mut s.env, wallet.clone(), recipient.clone(), 0);
    assert_eq!(zero_result, Err(WardenError::InvalidAmount));

    let negative_result = WardenContract::evaluate(&mut s.env, wallet, recipient, -5);
    assert_eq!(negative_result, Err(WardenError::InvalidAmount));
}

#[test]
fn get_policy_returns_configured_policy() {
    let mut s = setup();
    let wallet = s.generate();
    WardenContract::set_policy(&mut s.env, wallet.clone(), 1_000, 5_000, true, 5_000, 999_999_999)
        .unwrap();

    let policy = WardenContract::get_policy(&s.env, wallet).unwrap();
    assert_eq!(policy.max_no_stepup, 1_000);
    assert_eq!(policy.daily_velocity_cap, 5_000);
    assert!(policy.new_recipient_requires_stepup);
}

#[test]
fn get_policy_fails_when_not_set() {
    let mut s = setup();
    let wallet = s.generate();
    let result = WardenContract::get_policy(&s.env, wallet);
    assert_eq!(result.unwrap_err(), WardenError::PolicyNotFound);
}

#[test]
fn get_velocity_returns_recorded_window() {
    let mut s = setup();
    let wallet = s.generate();
    let recipient = s.generate();

    WardenContract::set_policy(&mut s.env, wallet.clone(), 1_000, 5_000, false, 5_000, 999_999_999)
        .unwrap();
    WardenContract::evaluate(&mut s.env, wallet.clone(), recipient, 400).unwrap();

    let window = WardenContract::get_velocity(&s.env, wallet).unwrap();
    assert_eq!(window.cumulative_amount, 400);
    assert_eq!(window.tx_count, 1);
}

#[test]
fn get_velocity_returns_zeroed_window_when_no_activity() {
    let mut s = setup();
    let wallet = s.generate();
    let window = WardenContract::get_velocity(&s.env, wallet).unwrap();

    assert_eq!(window.window_start, 0);
    assert_eq!(window.cumulative_amount, 0);
    assert_eq!(window.tx_count, 0);
}

#[test]
fn evaluate_requires_stepup_for_hourly_velocity_while_daily_has_headroom() {
    let mut s = setup();
    let wallet = s.generate();
    let recipient = s.generate();

    // Generous daily cap, tight hourly cap.
    WardenContract::set_policy(&mut s.env, wallet.clone(), 1_000, 10_000, false, 500, 999_999_999)
        .unwrap();

    let first = WardenContract::evaluate(&mut s.env, wallet.clone(), recipient.clone(), 300).unwrap();
    assert_eq!(first, Decision::Allow);

    // 600 <= 10_000 (daily headroom) but 600 > 500 (hourly cap exceeded).
    let second = WardenContract::evaluate(&mut s.env, wallet.clone(), recipient, 300).unwrap();
    assert_eq!(second, Decision::RequireStepUp(StepUpReason::HourlyVelocityExceeded));

    let daily = storage::read_daily_velocity(&s.env, &wallet).unwrap();
    assert_eq!(daily.cumulative_amount, 600);
    assert!(daily.cumulative_amount < 10_000);
}

#[test]
fn evaluate_recipient_decays_out_of_trust_after_configured_period() {
    let mut s = setup();
    let wallet = s.generate();
    let recipient = s.generate();

    // trust_decay_seconds = 100.
    WardenContract::set_policy(&mut s.env, wallet.clone(), 1_000, 5_000, true, 5_000, 100).unwrap();
    WardenContract::add_trusted_recipient(&mut s.env, wallet.clone(), recipient.clone()).unwrap();

    // Fresh, within the decay window -> Allow.
    let fresh = WardenContract::evaluate(&mut s.env, wallet.clone(), recipient.clone(), 10).unwrap();
    assert_eq!(fresh, Decision::Allow);

    // Past trust_decay_seconds without paying this recipient again.
    let now = s.env.timestamp;
    s.env.set_timestamp(now + 101);

    // Still listed, but too long since last_paid_at -> a new recipient.
    let decayed = WardenContract::evaluate(&mut s.env, wallet, recipient, 10).unwrap();
    assert_eq!(decayed, Decision::RequireStepUp(StepUpReason::NewRecipient));
}
