//! The proof verifier: the two checks that guard every payout.

use vstd::prelude::*;

use crate::swarm::SwarmProof;
use crate::swarm::SwarmProofView;

verus! {

/// Decides whether a result hash and a swarm proof are genuine. Each answer
/// is a function of what is asked alone: asking again gives the same answer.
pub trait ProofVerifier {
    /// Whether `result_hash` is the digest of a correct computation.
    spec fn result_is_valid(&self, result_hash: Seq<u8>) -> bool;

    /// Whether the signatures of `proof` are a quorum of the swarm it names,
    /// authorizing its task hash.
    spec fn proof_is_valid(&self, proof: SwarmProofView) -> bool;

    /// Judges a result hash.
    fn verify_computation_result(&self, result_hash: &[u8; 32]) -> (valid: bool)
        ensures
            valid == self.result_is_valid(result_hash@),
    ;

    /// Judges a swarm proof.
    fn verify_swarm_proof(&self, proof: &SwarmProof) -> (valid: bool)
        ensures
            valid == self.proof_is_valid(proof@),
    ;
}

/// A verifier whose two answers are fixed in advance, whatever it is asked.
#[derive(Clone, Copy, Debug, PartialEq, Eq)]
pub struct FixedVerifier {
    pub accepts_results: bool,
    pub accepts_proofs: bool,
}

impl ProofVerifier for FixedVerifier {
    open spec fn result_is_valid(&self, result_hash: Seq<u8>) -> bool {
        self.accepts_results
    }

    open spec fn proof_is_valid(&self, proof: SwarmProofView) -> bool {
        self.accepts_proofs
    }

    fn verify_computation_result(&self, result_hash: &[u8; 32]) -> (valid: bool) {
        self.accepts_results
    }

    fn verify_swarm_proof(&self, proof: &SwarmProof) -> (valid: bool) {
        self.accepts_proofs
    }
}

} // verus!
