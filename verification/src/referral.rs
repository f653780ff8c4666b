//! The referral registry: one accrual record per referrer.

use vstd::prelude::*;

use anchor_lang::prelude::Pubkey;

verus! {

/// What a referrer has accrued. Nothing in this crate adds to the counters.
#[derive(Clone, Debug, PartialEq, Eq)]
pub struct ReferralInfo {
    pub referrer: Pubkey,
    pub total_rewards: u64,
    pub active_referrals: u64,
}

/// The record of a referrer who has accrued nothing yet.
pub open spec fn fresh_referral(referrer: Pubkey) -> ReferralInfo {
    ReferralInfo { referrer, total_rewards: 0, active_referrals: 0 }
}

/// Registers `referrer` with both counters at zero.
pub fn register_referral(referrer: Pubkey) -> (info: ReferralInfo)
    ensures
        info == fresh_referral(referrer),
{
    ReferralInfo { referrer, total_rewards: 0, active_referrals: 0 }
}

} // verus!
