//! The stake pool: one record of stake minimums and bonus rates.

use vstd::prelude::*;

use anchor_lang::prelude::Pubkey;

verus! {

/// Reward units paid per computation unit; every pool starts with this rate.
pub const BASELINE_REWARD_RATE: u64 = 100;

/// Bonuses are whole percentages, so none exceeds this.
pub const MAX_BONUS_PERCENT: u64 = 100;

/// Configuration shared by every task of the marketplace.
#[derive(Clone, Debug, PartialEq, Eq)]
pub struct Pool {
    /// The only identity allowed to reconfigure the pool.
    pub authority: Pubkey,
    pub total_staked: u64,
    pub reward_rate: u64,
    pub min_stake: u64,
    /// Percentage of the reward paid on top of it to the completing worker.
    pub leader_bonus: u64,
    /// Percentage reserved for referrers.
    pub referral_bonus: u64,
}

impl Pool {
    /// Both bonuses are percentages between 0 and 100.
    pub open spec fn well_formed(&self) -> bool {
        &&& self.leader_bonus <= MAX_BONUS_PERCENT
        &&& self.referral_bonus <= MAX_BONUS_PERCENT
    }
}

/// The pool as it is right after initialization.
pub open spec fn initial_pool(
    authority: Pubkey,
    min_stake: u64,
    leader_bonus: u64,
    referral_bonus: u64,
) -> Pool {
    Pool {
        authority,
        total_staked: 0,
        reward_rate: BASELINE_REWARD_RATE,
        min_stake,
        leader_bonus,
        referral_bonus,
    }
}

/// Creates the pool for `authority` with nothing staked and the baseline
/// reward rate.
pub fn initialize_pool(
    authority: Pubkey,
    min_stake: u64,
    leader_bonus: u64,
    referral_bonus: u64,
) -> (pool: Pool)
    requires
        leader_bonus <= MAX_BONUS_PERCENT,
        referral_bonus <= MAX_BONUS_PERCENT,
    ensures
        pool == initial_pool(authority, min_stake, leader_bonus, referral_bonus),
        pool.well_formed(),
{
    Pool {
        authority,
        total_staked: 0,
        reward_rate: BASELINE_REWARD_RATE,
        min_stake,
        leader_bonus,
        referral_bonus,
    }
}

} // verus!
