//! Reads and writes of the contract's storage entries, one pair per kind of
//! entry, each keyed by the account it belongs to.

use vstd::prelude::*;
use crate::address::Address;
use crate::env::{Env, EnvView};
use crate::types::{AccountState, GuardianConfig, Policy, RecoveryProposal, VelocityWindow};

verus! {

/// `wallet`'s policy, if it has one.
pub fn read_policy(env: &Env, wallet: &Address) -> (r: Option<Policy>)
    ensures
        r.is_some() == env@.policies.contains_key(wallet@),
        r matches Some(p) ==> p@ == env@.policies[wallet@],
{
    match env.policies.get(wallet) {
        Some(p) => Some(p.clone()),
        None => None,
    }
}

/// Stores `policy` as `wallet`'s policy.
pub fn write_policy(env: &mut Env, wallet: &Address, policy: &Policy)
    ensures
        final(env)@ == (EnvView { policies: old(env)@.policies.insert(wallet@, policy@), ..old(env)@ }),
{
    env.policies.set(wallet.clone(), policy.clone());
}

/// `wallet`'s stored daily velocity window, if it has one.
pub fn read_daily_velocity(env: &Env, wallet: &Address) -> (r: Option<VelocityWindow>)
    ensures
        r.is_some() == env@.daily_velocity.contains_key(wallet@),
        r matches Some(w) ==> w == env@.daily_velocity[wallet@],
{
    match env.daily_velocity.get(wallet) {
        Some(w) => Some(*w),
        None => None,
    }
}

/// Stores `velocity` as `wallet`'s daily velocity window.
pub fn write_daily_velocity(env: &mut Env, wallet: &Address, velocity: &VelocityWindow)
    ensures
        final(env)@ == (EnvView {
            daily_velocity: old(env)@.daily_velocity.insert(wallet@, *velocity),
            ..old(env)@
        }),
{
    env.daily_velocity.set(wallet.clone(), *velocity);
}

/// `wallet`'s stored hourly velocity window, if it has one.
pub fn read_hourly_velocity(env: &Env, wallet: &Address) -> (r: Option<VelocityWindow>)
    ensures
        r.is_some() == env@.hourly_velocity.contains_key(wallet@),
        r matches Some(w) ==> w == env@.hourly_velocity[wallet@],
{
    match env.hourly_velocity.get(wallet) {
        Some(w) => Some(*w),
        None => None,
    }
}

/// Stores `velocity` as `wallet`'s hourly velocity window.
pub fn write_hourly_velocity(env: &mut Env, wallet: &Address, velocity: &VelocityWindow)
    ensures
        final(env)@ == (EnvView {
            hourly_velocity: old(env)@.hourly_velocity.insert(wallet@, *velocity),
            ..old(env)@
        }),
{
    env.hourly_velocity.set(wallet.clone(), *velocity);
}

/// Whether `address` is in the flagged-address registry; an address with no
/// entry is not flagged.
pub fn is_address_flagged(env: &Env, address: &Address) -> (r: bool)
    ensures
        r == env@.is_flagged(address@),
{
    match env.flagged.get(address) {
        Some(f) => *f,
        None => false,
    }
}

/// Adds `address` to the flagged-address registry.
pub fn write_flagged_address(env: &mut Env, address: &Address)
    ensures
        final(env)@ == (EnvView { flagged: old(env)@.flagged.insert(address@, true), ..old(env)@ }),
{
    env.flagged.set(address.clone(), true);
}

/// Removes `address`'s entry from the flagged-address registry.
pub fn remove_flagged_address(env: &mut Env, address: &Address)
    ensures
        final(env)@ == (EnvView { flagged: old(env)@.flagged.remove(address@), ..old(env)@ }),
{
    env.flagged.remove(address);
}

/// The state of `wallet`'s account; an account with no entry is `Normal`.
pub fn read_account_state(env: &Env, wallet: &Address) -> (r: AccountState)
    ensures
        r == env@.account_state(wallet@),
{
    match env.account_states.get(wallet) {
        Some(s) => *s,
        None => AccountState::Normal,
    }
}

/// Stores `state` as the state of `wallet`'s account.
pub fn write_account_state(env: &mut Env, wallet: &Address, state: &AccountState)
    ensures
        final(env)@ == (EnvView {
            account_states: old(env)@.account_states.insert(wallet@, *state),
            ..old(env)@
        }),
{
    env.account_states.set(wallet.clone(), *state);
}

/// `wallet`'s guardian configuration, if it has one.
pub fn read_guardian_config(env: &Env, wallet: &Address) -> (r: Option<GuardianConfig>)
    ensures
        r.is_some() == env@.guardian_configs.contains_key(wallet@),
        r matches Some(c) ==> c@ == env@.guardian_configs[wallet@],
{
    match env.guardian_configs.get(wallet) {
        Some(c) => Some(c.clone()),
        None => None,
    }
}

/// Stores `config` as `wallet`'s guardian configuration.
pub fn write_guardian_config(env: &mut Env, wallet: &Address, config: &GuardianConfig)
    ensures
        final(env)@ == (EnvView {
            guardian_configs: old(env)@.guardian_configs.insert(wallet@, config@),
            ..old(env)@
        }),
{
    env.guardian_configs.set(wallet.clone(), config.clone());
}

/// `wallet`'s pending recovery proposal, if there is one.
pub fn read_recovery_proposal(env: &Env, wallet: &Address) -> (r: Option<RecoveryProposal>)
    ensures
        r.is_some() == env@.recovery_proposals.contains_key(wallet@),
        r matches Some(p) ==> p@ == env@.recovery_proposals[wallet@],
{
    match env.recovery_proposals.get(wallet) {
        Some(p) => Some(p.clone()),
        None => None,
    }
}

/// Stores `proposal` as `wallet`'s pending recovery proposal.
pub fn write_recovery_proposal(env: &mut Env, wallet: &Address, proposal: &RecoveryProposal)
    ensures
        final(env)@ == (EnvView {
            recovery_proposals: old(env)@.recovery_proposals.insert(wallet@, proposal@),
            ..old(env)@
        }),
{
    env.recovery_proposals.set(wallet.clone(), proposal.clone());
}

/// Removes `wallet`'s pending recovery proposal.
pub fn remove_recovery_proposal(env: &mut Env, wallet: &Address)
    ensures
        final(env)@ == (EnvView {
            recovery_proposals: old(env)@.recovery_proposals.remove(wallet@),
            ..old(env)@
        }),
{
    env.recovery_proposals.remove(wallet);
}

} // verus!
