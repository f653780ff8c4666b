//! The task ledger: a task from its funding to its one completion.

use vstd::prelude::*;

use anchor_lang::prelude::Pubkey;

use crate::error::ErrorCode;
use crate::error::InsufficientBalance;
use crate::ledger::TransferCapability;
use crate::ledger::balance_after;
use crate::pool::Pool;
use crate::proof_verifier::ProofVerifier;
use crate::reward::escrow_covers;
use crate::reward::settle;
use crate::reward::total_reward_of;
use crate::swarm::SwarmProof;
use crate::swarm::SwarmProofView;

verus! {

/// Where a task stands. Only an `Open` task moves, and it never comes back.
#[derive(Clone, Copy, Debug, PartialEq, Eq, Structural)]
pub enum TaskStatus {
    Open,
    InProgress,
    Completed,
    Failed,
}

impl TaskStatus {
    /// Whether a task in this status may move to `next`: only from `Open`,
    /// and only away from it.
    pub open spec fn may_become(self, next: TaskStatus) -> bool {
        self == TaskStatus::Open && next != TaskStatus::Open
    }

    /// Moves to `next` where that is allowed, and refuses every other step
    /// with `InvalidTaskStatus`.
    pub fn transition(self, next: TaskStatus) -> (moved: Result<TaskStatus, ErrorCode>)
        ensures
            self.may_become(next) ==> moved == Ok::<TaskStatus, ErrorCode>(next),
            !self.may_become(next) ==> moved == Err::<TaskStatus, ErrorCode>(
                ErrorCode::InvalidTaskStatus,
            ),
    {
        match (self, next) {
            (TaskStatus::Open, TaskStatus::InProgress) => Ok(next),
            (TaskStatus::Open, TaskStatus::Completed) => Ok(next),
            (TaskStatus::Open, TaskStatus::Failed) => Ok(next),
            (TaskStatus::Open, TaskStatus::Open) => Err(ErrorCode::InvalidTaskStatus),
            (TaskStatus::InProgress, _) => Err(ErrorCode::InvalidTaskStatus),
            (TaskStatus::Completed, _) => Err(ErrorCode::InvalidTaskStatus),
            (TaskStatus::Failed, _) => Err(ErrorCode::InvalidTaskStatus),
        }
    }
}

/// A unit of escrowed work. Who completed it, with which proof and which
/// result, is recorded once, when it is completed.
#[derive(Clone, Debug, PartialEq, Eq)]
pub struct Task {
    pub creator: Pubkey,
    /// Size of the work; it has no part in what the task pays.
    pub computation_units: u64,
    pub reward: u64,
    pub status: TaskStatus,
    pub completed_by: Option<Pubkey>,
    pub swarm_proof: Option<SwarmProof>,
    pub result_hash: Option<[u8; 32]>,
}

/// A task as plain values.
pub struct TaskView {
    pub creator: Pubkey,
    pub computation_units: u64,
    pub reward: u64,
    pub status: TaskStatus,
    pub completed_by: Option<Pubkey>,
    pub swarm_proof: Option<SwarmProofView>,
    pub result_hash: Option<Seq<u8>>,
}

impl TaskView {
    /// The task right after its creation: open, with no completion recorded.
    pub open spec fn opened(creator: Pubkey, computation_units: u64, reward: u64) -> TaskView {
        TaskView {
            creator,
            computation_units,
            reward,
            status: TaskStatus::Open,
            completed_by: None,
            swarm_proof: None,
            result_hash: None,
        }
    }

    /// The same task once `worker` has completed it with `proof` and
    /// `result_hash`.
    pub open spec fn completed(
        self,
        worker: Pubkey,
        proof: SwarmProofView,
        result_hash: Seq<u8>,
    ) -> TaskView {
        TaskView {
            status: TaskStatus::Completed,
            completed_by: Some(worker),
            swarm_proof: Some(proof),
            result_hash: Some(result_hash),
            ..self
        }
    }

    /// How an attempt to complete the task under `pool` ends, given the
    /// verifier's two answers and what the escrow holds.
    pub open spec fn completion(
        self,
        pool: Pool,
        result_valid: bool,
        proof_valid: bool,
        escrow_balance: u64,
    ) -> Result<u64, ErrorCode> {
        completion_outcome(
            self.status,
            result_valid,
            proof_valid,
            total_reward_of(self.reward, pool.leader_bonus),
            escrow_balance,
        )
    }

    /// The completion is recorded in full on a completed task, and not at all
    /// on any other.
    pub open spec fn well_formed(self) -> bool {
        let done = self.status == TaskStatus::Completed;
        &&& self.completed_by is Some <==> done
        &&& self.swarm_proof is Some <==> done
        &&& self.result_hash is Some <==> done
    }
}

impl View for Task {
    type V = TaskView;

    open spec fn view(&self) -> TaskView {
        TaskView {
            creator: self.creator,
            computation_units: self.computation_units,
            reward: self.reward,
            status: self.status,
            completed_by: self.completed_by,
            swarm_proof: match self.swarm_proof {
                Some(proof) => Some(proof@),
                None => None,
            },
            result_hash: match self.result_hash {
                Some(hash) => Some(hash@),
                None => None,
            },
        }
    }
}

/// Opens a task for `creator` and funds its escrow: `reward` moves from
/// `funding` to `escrow`. Where `funding` holds less than `reward`, no task is
/// created and the ledger is left as it was.
pub fn create_task<L: TransferCapability>(
    creator: Pubkey,
    computation_units: u64,
    reward: u64,
    ledger: &mut L,
    funding: &Pubkey,
    escrow: &Pubkey,
) -> (opened: Result<Task, InsufficientBalance>)
    requires
        old(ledger).well_formed(),
        reward > 0,
    ensures
        final(ledger).well_formed(),
        opened is Ok <==> old(ledger).balance(*funding) >= reward,
        opened matches Ok(task) ==> task@ == TaskView::opened(creator, computation_units, reward)
            && task@.well_formed(),
        opened is Ok ==> forall|account: Pubkey|
            final(ledger).balance(account) == balance_after(
                old(ledger).balance(account),
                account,
                *funding,
                *escrow,
                reward as int,
            ),
        opened is Ok && *funding != *escrow ==> final(ledger).balance(*escrow) == old(
            ledger,
        ).balance(*escrow) + reward,
        opened is Err ==> forall|account: Pubkey|
            final(ledger).balance(account) == old(ledger).balance(account),
{
    match ledger.transfer(funding, escrow, reward) {
        Err(refusal) => Err(refusal),
        Ok(()) => Ok(
            Task {
                creator,
                computation_units,
                reward,
                status: TaskStatus::Open,
                completed_by: None,
                swarm_proof: None,
                result_hash: None,
            },
        ),
    }
}

/// How an attempt to complete a task ends, given the task's status, the
/// verifier's two answers, what the completion pays and what the escrow
/// holds: with the amount paid, or with the error of the first check that
/// fails, in this order.
pub open spec fn completion_outcome(
    status: TaskStatus,
    result_valid: bool,
    proof_valid: bool,
    total_reward: int,
    escrow_balance: u64,
) -> Result<u64, ErrorCode> {
    if status != TaskStatus::Open {
        Err(ErrorCode::InvalidTaskStatus)
    } else if !result_valid {
        Err(ErrorCode::InvalidComputationResult)
    } else if !proof_valid {
        Err(ErrorCode::InvalidSwarmProof)
    } else if !escrow_covers(escrow_balance, total_reward) {
        Err(ErrorCode::InsufficientReward)
    } else {
        Ok(total_reward as u64)
    }
}

/// Completes `task` for `worker`: once the task is found open and the
/// verifier has accepted both the result and the proof, the reward and the
/// pool's leader bonus move from `escrow` to `payee`, and the completion is
/// recorded. Returns the amount paid. On any failure neither the task nor the
/// ledger changes.
pub fn complete_task<V: ProofVerifier, L: TransferCapability>(
    task: &mut Task,
    pool: &Pool,
    worker: Pubkey,
    result_hash: [u8; 32],
    swarm_proof: SwarmProof,
    verifier: &V,
    ledger: &mut L,
    escrow: &Pubkey,
    payee: &Pubkey,
) -> (outcome: Result<u64, ErrorCode>)
    requires
        old(ledger).well_formed(),
    ensures
        final(ledger).well_formed(),
        outcome == old(task)@.completion(
            *pool,
            verifier.result_is_valid(result_hash@),
            verifier.proof_is_valid(swarm_proof@),
            old(ledger).balance(*escrow),
        ),
        outcome is Ok ==> final(task)@ == old(task)@.completed(worker, swarm_proof@, result_hash@),
        outcome is Ok ==> forall|account: Pubkey|
            final(ledger).balance(account) == balance_after(
                old(ledger).balance(account),
                account,
                *escrow,
                *payee,
                total_reward_of(old(task).reward, pool.leader_bonus),
            ),
        outcome is Ok && *escrow != *payee ==> final(ledger).balance(*escrow) == old(
            ledger,
        ).balance(*escrow) - total_reward_of(old(task).reward, pool.leader_bonus),
        outcome is Ok && *escrow != *payee ==> final(ledger).balance(*payee) == old(
            ledger,
        ).balance(*payee) + total_reward_of(old(task).reward, pool.leader_bonus),
        outcome is Err ==> *final(task) == *old(task),
        outcome is Err ==> forall|account: Pubkey|
            final(ledger).balance(account) == old(ledger).balance(account),
        old(task)@.well_formed() ==> final(task)@.well_formed(),
{
    let completed = match task.status.transition(TaskStatus::Completed) {
        Err(refusal) => {
            return Err(refusal);
        },
        Ok(next) => next,
    };
    if !verifier.verify_computation_result(&result_hash) {
        return Err(ErrorCode::InvalidComputationResult);
    }
    if !verifier.verify_swarm_proof(&swarm_proof) {
        return Err(ErrorCode::InvalidSwarmProof);
    }
    let paid = match settle(task.reward, pool, ledger, escrow, payee) {
        Err(refusal) => {
            return Err(refusal);
        },
        Ok(paid) => paid,
    };
    task.status = completed;
    task.completed_by = Some(worker);
    task.swarm_proof = Some(swarm_proof);
    task.result_hash = Some(result_hash);
    Ok(paid)
}

/// A task moves at most once: whatever status it has moved to, it can move
/// to no other.
pub proof fn moved_task_stays(from: TaskStatus, to: TaskStatus, next: TaskStatus)
    requires
        from.may_become(to),
    ensures
        !to.may_become(next),
{
}

/// A task is completed at most once: after a completion, every further
/// attempt ends with `InvalidTaskStatus`, whoever makes it, whatever the
/// verifier answers and whatever the escrow holds.
pub proof fn completion_happens_once(
    task: TaskView,
    worker: Pubkey,
    proof: SwarmProofView,
    result_hash: Seq<u8>,
    pool: Pool,
    result_valid: bool,
    proof_valid: bool,
    escrow_balance: u64,
)
    ensures
        task.completed(worker, proof, result_hash).completion(
            pool,
            result_valid,
            proof_valid,
            escrow_balance,
        ) == Err::<u64, ErrorCode>(ErrorCode::InvalidTaskStatus),
{
}

/// What a task pays depends on its reward and the pool's leader bonus, not
/// on its computation units: two tasks opened with the same reward end every
/// attempt at completion alike.
pub proof fn payout_ignores_computation_units(
    creator: Pubkey,
    units: u64,
    other_units: u64,
    reward: u64,
    pool: Pool,
    result_valid: bool,
    proof_valid: bool,
    escrow_balance: u64,
)
    ensures
        TaskView::opened(creator, units, reward).completion(
            pool,
            result_valid,
            proof_valid,
            escrow_balance,
        ) == TaskView::opened(creator, other_units, reward).completion(
            pool,
            result_valid,
            proof_valid,
            escrow_balance,
        ),
{
}

/// A successful completion pays the reward and the leader bonus, the bonus
/// rounded down to a whole amount.
pub proof fn completion_pays_reward_and_bonus(
    task: TaskView,
    pool: Pool,
    result_valid: bool,
    proof_valid: bool,
    escrow_balance: u64,
)
    requires
        task.completion(pool, result_valid, proof_valid, escrow_balance) is Ok,
    ensures
        task.completion(pool, result_valid, proof_valid, escrow_balance) == Ok::<u64, ErrorCode>(
            (task.reward + (task.reward * pool.leader_bonus) / 100) as u64,
        ),
        task.reward + (task.reward * pool.leader_bonus) / 100 <= escrow_balance,
{
}

} // verus!
