//! The wire entities and shared type aliases.

use vstd::prelude::*;
use crate::error::ProverError;
use crate::field::FieldElement;

verus! {

/// Result type for prover operations.
pub type ProverResult<T> = Result<T, ProverError>;

/// A vote proof: the only entity that crosses a process boundary together
/// with the keys. `public_inputs[0]` is the hex-encoded commitment,
/// `public_inputs[1]` the hex-encoded choice bound.
#[derive(Clone, Debug)]
pub struct VoteProof {
    /// The canonical compressed encoding of the proof.
    pub proof: Vec<u8>,
    /// The ordered, hex-encoded public inputs of the circuit.
    pub public_inputs: Vec<String>,
}

/// A vote commitment together with its opening, kept private until reveal.
#[derive(Clone, Debug)]
pub struct VoteCommitment {
    /// The commitment, hex-encoded.
    pub commitment: String,
    /// The choice (kept private until reveal).
    pub choice: u64,
    /// Random nonce (kept private until reveal).
    pub nonce: [u8; 32],
    /// Voter address.
    pub voter: String,
}

/// An eligibility proof: a stub entity with no constraint logic behind it.
#[derive(Clone, Debug)]
pub struct EligibilityProof {
    /// The proof bytes.
    pub proof: Vec<u8>,
    /// Public inputs (the Merkle root).
    pub public_inputs: Vec<String>,
}

/// A Merkle tree node.
pub struct MerkleNode {
    /// The node's hash, as a field element.
    pub hash: FieldElement,
}

/// A Merkle proof path.
#[derive(Clone, Debug)]
pub struct MerklePath {
    /// Path from leaf to root.
    pub path: Vec<String>,
    /// Indices indicating left or right at each level.
    pub indices: Vec<bool>,
}

/// Configuration for a Poseidon hash.
#[derive(Clone, Copy, Debug)]
pub struct PoseidonConfig {
    /// Number of full rounds.
    pub full_rounds: usize,
    /// Number of partial rounds.
    pub partial_rounds: usize,
    /// Alpha value.
    pub alpha: usize,
}

impl Default for PoseidonConfig {
    /// The default Poseidon parameters: 8 full rounds, 56 partial rounds,
    /// alpha 5.
    fn default() -> (r: Self)
        ensures
            r.full_rounds == 8,
            r.partial_rounds == 56,
            r.alpha == 5,
    {
        PoseidonConfig { full_rounds: 8, partial_rounds: 56, alpha: 5 }
    }
}

} // verus!
