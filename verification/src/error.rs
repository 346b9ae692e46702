//! The error taxonomy of proof generation and verification.
//!
//! Every failure is reported to the immediate caller as a typed error; no
//! failure is silently coerced to a boolean result. Message formatting is
//! outside this library's scope, so the variants carry no display text.

use vstd::prelude::*;

verus! {

/// Errors that can occur during proof generation and verification.
#[derive(Clone, Copy, Debug, PartialEq, Eq, Structural)]
pub enum ProverError {
    /// Malformed or incomplete witness assignment during circuit synthesis.
    SynthesisError,
    /// The underlying proving algorithm could not complete.
    ProofGenerationFailed,
    /// The verification equation itself could not be evaluated.
    VerificationFailed,
    /// Wrong count or shape of public inputs.
    InvalidParameters,
    /// A malformed byte or hex encoding for a key, proof or field element.
    SerializationError,
    /// A choice outside the declared range, with the bound it broke.
    InvalidChoice(u64, u64),
    /// A commitment that does not match its opening.
    InvalidCommitment,
    /// A Merkle path that does not reach the claimed root.
    InvalidMerkleProof,
    /// An input or output stream failed.
    IoError,
    /// The constraint system was left in an unusable state.
    ConstraintSystemError,
}

} // verus!
