//! The errors that the contract's operations return.

use vstd::prelude::*;

verus! {

/// Why an operation of the contract was refused.
///
/// A refused operation leaves the contract's state exactly as it found it.
#[derive(Clone, Copy, Debug, PartialEq, Eq, Structural, PartialOrd, Ord)]
pub enum WardenError {
    NotInitialized,
    AlreadyInitialized,
    PolicyNotFound,
    InvalidAmount,
    InvalidPolicyParams,
    RecipientAlreadyTrusted,
    RecipientNotTrusted,
    /// The caller proved who they are, but they are not the admin stored at
    /// initialisation: identity, not privilege. `NotInitialized` means that no
    /// admin has been stored at all.
    NotAdmin,
    AddressAlreadyFlagged,
    AddressNotFlagged,
    /// The account is `Restricted` or worse, so its guardians cannot be changed.
    GuardianConfigLocked,
    InvalidGuardianConfig,
    GuardiansNotConfigured,
    NotGuardian,
    RecoveryAlreadyProposed,
    InvalidTargetState,
    RecoveryNotFound,
    AlreadyApproved,
    InsufficientApprovals,
    TimelockNotElapsed,
}

} // verus!
