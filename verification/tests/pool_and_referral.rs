use anchor_lang::prelude::Pubkey;
use neurolov::pool::{BASELINE_REWARD_RATE, MAX_BONUS_PERCENT};
use neurolov::{initialize_pool, register_referral, Pool, ReferralInfo};

fn key(tag: u8) -> Pubkey {
    Pubkey::new_from_array([tag; 32])
}

#[test]
fn pool_starts_with_nothing_staked_and_baseline_rate() {
    let pool = initialize_pool(key(1), 500, 10, 5);

    assert_eq!(
        pool,
        Pool {
            authority: key(1),
            total_staked: 0,
            reward_rate: 100,
            min_stake: 500,
            leader_bonus: 10,
            referral_bonus: 5,
        }
    );
}

#[test]
fn pool_accepts_the_smallest_and_largest_bonus() {
    let none = initialize_pool(key(1), 0, 0, 0);
    let full = initialize_pool(key(2), u64::MAX, 100, 100);

    assert_eq!((none.leader_bonus, none.referral_bonus, none.min_stake), (0, 0, 0));
    assert_eq!((full.leader_bonus, full.referral_bonus, full.min_stake), (100, 100, u64::MAX));
    assert_eq!(full.authority, key(2));
    assert_eq!(full.reward_rate, 100);
    assert_eq!(full.total_staked, 0);
}

#[test]
fn pool_constants_have_their_documented_values() {
    assert_eq!(BASELINE_REWARD_RATE, 100);
    assert_eq!(MAX_BONUS_PERCENT, 100);
}

#[test]
fn referral_starts_with_nothing_accrued() {
    let info = register_referral(key(7));

    assert_eq!(info, ReferralInfo { referrer: key(7), total_rewards: 0, active_referrals: 0 });
}

#[test]
fn referrals_of_two_referrers_differ_only_in_the_referrer() {
    let first = register_referral(key(7));
    let second = register_referral(key(8));

    assert_ne!(first, second);
    assert_eq!(first.total_rewards, second.total_rewards);
    assert_eq!(first.active_referrals, second.active_referrals);
}
