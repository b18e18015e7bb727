//! Warden: the policy engine that decides whether a smart-wallet transfer may go
//! ahead or needs step-up confirmation, together with the flagged-address
//! registry and the guardian recovery state machine around it.

pub mod address;
pub mod contract;
pub mod env;
pub mod errors;
pub mod laws;
pub mod rules;
pub mod storage;
pub mod types;

pub use address::{AddrMap, Address};
pub use errors::WardenError;
pub use types::{
    AccountState, Decision, GuardianConfig, Policy, RecoveryProposal, StepUpReason,
    VelocityWindow,
};
pub use env::{ContractEvent, Env};
pub use contract::WardenContract;
