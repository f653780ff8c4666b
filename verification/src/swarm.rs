//! The swarm registry: groups of workers, and the proofs they sign.

use vstd::prelude::*;

use anchor_lang::prelude::Pubkey;

use crate::identity::same_key;

verus! {

/// The score every swarm starts with.
pub const INITIAL_PERFORMANCE_SCORE: u64 = 100;

/// A swarm's signed statement that it completed one task. Nothing here ties
/// its members or its power to a registered swarm: whether the signatures are
/// a quorum of the swarm it names is for the proof verifier to judge.
#[derive(Clone, Debug, PartialEq, Eq)]
pub struct SwarmProof {
    pub leader: Pubkey,
    pub members: Vec<Pubkey>,
    pub total_power: u64,
    pub task_hash: [u8; 32],
    pub signatures: Vec<[u8; 64]>,
}

/// A proof as plain values: each signature is its sequence of 64 bytes.
pub struct SwarmProofView {
    pub leader: Pubkey,
    pub members: Seq<Pubkey>,
    pub total_power: u64,
    pub task_hash: Seq<u8>,
    pub signatures: Seq<Seq<u8>>,
}

impl View for SwarmProof {
    type V = SwarmProofView;

    open spec fn view(&self) -> SwarmProofView {
        SwarmProofView {
            leader: self.leader,
            members: self.members@,
            total_power: self.total_power,
            task_hash: self.task_hash@,
            signatures: Seq::new(self.signatures@.len(), |at: int| self.signatures@[at]@),
        }
    }
}

/// A registered group of workers. Its power is what the leader declared; it
/// is not derived from the members.
#[derive(Clone, Debug, PartialEq, Eq)]
pub struct SwarmState {
    pub leader: Pubkey,
    pub members: Vec<Pubkey>,
    pub total_power: u64,
    pub tasks_completed: u64,
    pub performance_score: u64,
}

/// A swarm as plain values.
pub struct SwarmStateView {
    pub leader: Pubkey,
    pub members: Seq<Pubkey>,
    pub total_power: u64,
    pub tasks_completed: u64,
    pub performance_score: u64,
}

impl SwarmStateView {
    /// The swarm right after registration.
    pub open spec fn registered(
        leader: Pubkey,
        members: Seq<Pubkey>,
        total_power: u64,
    ) -> SwarmStateView {
        SwarmStateView {
            leader,
            members,
            total_power,
            tasks_completed: 0,
            performance_score: INITIAL_PERFORMANCE_SCORE,
        }
    }

    /// A swarm has at least one member, and lists none twice.
    pub open spec fn well_formed(self) -> bool {
        &&& self.members.len() > 0
        &&& self.members.no_duplicates()
    }
}

impl View for SwarmState {
    type V = SwarmStateView;

    open spec fn view(&self) -> SwarmStateView {
        SwarmStateView {
            leader: self.leader,
            members: self.members@,
            total_power: self.total_power,
            tasks_completed: self.tasks_completed,
            performance_score: self.performance_score,
        }
    }
}

/// Whether no key occurs twice in `keys`.
pub fn keys_are_distinct(keys: &Vec<Pubkey>) -> (distinct: bool)
    ensures
        distinct == keys@.no_duplicates(),
{
    let mut upper: usize = 0;
    while upper < keys.len()
        invariant
            upper <= keys@.len(),
            forall|i: int, j: int| 0 <= i < j < upper ==> keys@[i] != keys@[j],
        decreases keys@.len() - upper,
    {
        let mut lower: usize = 0;
        while lower < upper
            invariant
                lower <= upper < keys@.len(),
                forall|i: int| 0 <= i < lower ==> keys@[i] != keys@[upper as int],
            decreases upper - lower,
        {
            if same_key(&keys[lower], &keys[upper]) {
                return false;
            }
            lower += 1;
        }
        upper += 1;
    }
    assert forall|i: int, j: int| 0 <= i < keys@.len() && 0 <= j < keys@.len() && i != j implies keys@[i]
        != keys@[j] by {
        if i < j {
            assert(keys@[i] != keys@[j]);
        } else {
            assert(keys@[j] != keys@[i]);
        }
    }
    true
}

/// Registers a swarm led by `leader`, with no task completed yet and the
/// initial score. The leader need not be among `members`.
///
/// That no member is named twice is the caller's to see to: the list is
/// recorded as given, without a check of its own.
pub fn create_swarm(leader: Pubkey, members: Vec<Pubkey>, total_power: u64) -> (swarm: SwarmState)
    requires
        members@.len() > 0,
        members@.no_duplicates(),
    ensures
        swarm@ == SwarmStateView::registered(leader, members@, total_power),
        swarm@.well_formed(),
{
    SwarmState {
        leader,
        members,
        total_power,
        tasks_completed: 0,
        performance_score: INITIAL_PERFORMANCE_SCORE,
    }
}

} // verus!
