//! Failures that the marketplace reports to its callers.

use vstd::prelude::*;

verus! {

/// Why an operation of the marketplace was refused.
#[derive(Clone, Copy, Debug, PartialEq, Eq, Structural)]
pub enum ErrorCode {
    /// The task is not `Open`, so it cannot be completed.
    InvalidTaskStatus,
    /// The verifier rejected the submitted result hash.
    InvalidComputationResult,
    /// The escrow does not cover the reward and its bonus.
    InsufficientReward,
    /// The verifier rejected the swarm's proof.
    InvalidSwarmProof,
    /// Kept for referral checks; no operation of this crate returns it.
    InvalidReferral,
}

/// The ledger's refusal of a transfer: the paying account holds less than
/// the amount asked for.
#[derive(Clone, Copy, Debug, PartialEq, Eq, Structural)]
pub struct InsufficientBalance;

} // verus!
