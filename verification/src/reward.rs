//! Reward settlement: what a completed task pays, and the payout itself.

use vstd::prelude::*;

use anchor_lang::prelude::Pubkey;

use crate::error::ErrorCode;
use crate::ledger::TransferCapability;
use crate::ledger::balance_after;
use crate::pool::Pool;

verus! {

/// The leader bonus on `reward`: `bonus_percent` hundredths of it, rounded
/// down.
pub open spec fn leader_bonus_of(reward: u64, bonus_percent: u64) -> int {
    (reward * bonus_percent) / 100
}

/// What completing a task of `reward` pays: the reward and its leader bonus.
pub open spec fn total_reward_of(reward: u64, bonus_percent: u64) -> int {
    reward + leader_bonus_of(reward, bonus_percent)
}

/// The bonus is the largest whole amount whose hundredfold does not exceed
/// `reward * bonus_percent`: it is never rounded up.
pub proof fn leader_bonus_truncates(reward: u64, bonus_percent: u64)
    ensures
        0 <= leader_bonus_of(reward, bonus_percent),
        100 * leader_bonus_of(reward, bonus_percent) <= reward * bonus_percent,
        reward * bonus_percent < 100 * (leader_bonus_of(reward, bonus_percent) + 1),
{
    let product: int = reward * bonus_percent;
    assert(0 <= product) by (nonlinear_arith)
        requires
            product == reward * bonus_percent,
    ;
    assert(product == 100 * (product / 100) + product % 100) by {
        vstd::arithmetic::div_mod::lemma_fundamental_div_mod(product, 100);
    }
}

/// Under a well-formed pool the bonus is at most the reward, so a completion
/// pays at most twice the reward.
pub proof fn payout_at_most_doubles_reward(reward: u64, pool: Pool)
    requires
        pool.well_formed(),
    ensures
        leader_bonus_of(reward, pool.leader_bonus) <= reward,
        total_reward_of(reward, pool.leader_bonus) <= 2 * reward,
{
    let product: int = reward * pool.leader_bonus;
    assert(product <= reward * 100) by (nonlinear_arith)
        requires
            product == reward * pool.leader_bonus,
            pool.leader_bonus <= 100,
    ;
}

/// Computes the payout of a task of `reward` under a leader bonus of
/// `bonus_percent`, or `None` where it exceeds every balance a ledger can
/// hold.
pub fn total_reward(reward: u64, bonus_percent: u64) -> (total: Option<u64>)
    ensures
        total_reward_of(reward, bonus_percent) <= u64::MAX ==> total == Some(
            total_reward_of(reward, bonus_percent) as u64,
        ),
        total_reward_of(reward, bonus_percent) > u64::MAX ==> total is None,
{
    let wide_reward: u128 = reward as u128;
    let wide_percent: u128 = bonus_percent as u128;
    assert(wide_reward * wide_percent <= 0xFFFF_FFFF_FFFF_FFFF * 0xFFFF_FFFF_FFFF_FFFF)
        by (nonlinear_arith)
        requires
            wide_reward <= 0xFFFF_FFFF_FFFF_FFFF,
            wide_percent <= 0xFFFF_FFFF_FFFF_FFFF,
    ;
    let bonus: u128 = wide_reward * wide_percent / 100;
    let total: u128 = wide_reward + bonus;
    if total <= u64::MAX as u128 {
        Some(total as u64)
    } else {
        None
    }
}

/// Whether an escrow holding `escrow_balance` can pay `total`.
pub open spec fn escrow_covers(escrow_balance: u64, total: int) -> bool {
    total <= escrow_balance
}

/// Pays the reward of a task and the pool's leader bonus from `escrow` to
/// `payee`, all of it or nothing, and returns the amount paid. It is the last
/// step of a completion, taken once the task was found open and the verifier
/// has accepted the result and the proof.
///
/// The bonus comes out of the escrow too: an escrow funded with the bare
/// reward does not cover a pool with a positive leader bonus, and the payout
/// is then refused.
pub(crate) fn settle<L: TransferCapability>(
    reward: u64,
    pool: &Pool,
    ledger: &mut L,
    escrow: &Pubkey,
    payee: &Pubkey,
) -> (paid: Result<u64, ErrorCode>)
    requires
        old(ledger).well_formed(),
    ensures
        final(ledger).well_formed(),
        escrow_covers(old(ledger).balance(*escrow), total_reward_of(reward, pool.leader_bonus))
            ==> paid == Ok::<u64, ErrorCode>(total_reward_of(reward, pool.leader_bonus) as u64),
        !escrow_covers(old(ledger).balance(*escrow), total_reward_of(reward, pool.leader_bonus))
            ==> paid == Err::<u64, ErrorCode>(ErrorCode::InsufficientReward),
        paid is Ok ==> forall|account: Pubkey|
            final(ledger).balance(account) == balance_after(
                old(ledger).balance(account),
                account,
                *escrow,
                *payee,
                total_reward_of(reward, pool.leader_bonus),
            ),
        paid is Err ==> forall|account: Pubkey|
            final(ledger).balance(account) == old(ledger).balance(account),
{
    match total_reward(reward, pool.leader_bonus) {
        None => Err(ErrorCode::InsufficientReward),
        Some(total) => match ledger.transfer(escrow, payee, total) {
            Ok(()) => Ok(total),
            Err(_) => Err(ErrorCode::InsufficientReward),
        },
    }
}

} // verus!
