//! Verified core of a compute marketplace: stake pool configuration, task
//! escrow and completion, swarm registration and reward settlement.

pub mod error;
pub mod identity;
pub mod ledger;
pub mod pool;
pub mod proof_verifier;
pub mod referral;
pub mod reward;
pub mod swarm;
pub mod task;

pub use crate::error::ErrorCode;
pub use crate::error::InsufficientBalance;
pub use crate::ledger::MemoryLedger;
pub use crate::ledger::TransferCapability;
pub use crate::pool::initialize_pool;
pub use crate::pool::Pool;
pub use crate::proof_verifier::FixedVerifier;
pub use crate::proof_verifier::ProofVerifier;
pub use crate::referral::register_referral;
pub use crate::referral::ReferralInfo;
pub use crate::reward::total_reward;
pub use crate::swarm::create_swarm;
pub use crate::swarm::keys_are_distinct;
pub use crate::swarm::SwarmProof;
pub use crate::swarm::SwarmState;
pub use crate::task::complete_task;
pub use crate::task::create_task;
pub use crate::task::Task;
pub use crate::task::TaskStatus;
