//! A zero-knowledge vote-validity library.
//!
//! A prover shows that a secret vote choice lies below a public bound and
//! matches a public commitment, without revealing the choice, via a Groth16
//! proof over the BN254 curve. This crate verifies the logic around the
//! pairing library: the commitment function, the circuit description, the
//! canonical byte and hex encodings, and the prove/verify workflow.

use vstd::prelude::*;

pub mod field;
pub mod commitment;
pub mod hexenc;
pub mod error;
pub mod types;
pub mod circuit;
pub mod prover;

verus! {

pub use error::ProverError;
pub use types::{ProverResult, VoteCommitment, VoteProof};
pub use circuit::VoteProofCircuit;
pub use prover::Prover;

} // verus!
