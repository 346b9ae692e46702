use ark_bn254::{Bn254, Fr};
use ark_groth16::Groth16;
use ark_r1cs_std::alloc::AllocVar;
use ark_r1cs_std::eq::EqGadget;
use ark_r1cs_std::fields::fp::FpVar;
use ark_relations::r1cs::{ConstraintSynthesizer, ConstraintSystemRef, SynthesisError};
use ark_serialize::CanonicalSerialize;
use ark_std::rand::rngs::StdRng;
use ark_std::rand::SeedableRng;

use zk_prover::prover::assemble_vote_proof;
use zk_prover::{Prover, ProverError, VoteProof, VoteProofCircuit};

// The pairing library drives constraint synthesis through its own trait,
// which the verified library cannot implement; this shell forwards the
// library's circuit values to the gadget calls.
struct CircuitShell {
    choice: Option<Fr>,
    nonce: Option<Fr>,
    voter: Option<Fr>,
    commitment: Option<Fr>,
    max_choice: Option<Fr>,
}

impl CircuitShell {
    fn from_circuit(c: VoteProofCircuit) -> Self {
        CircuitShell {
            choice: c.choice.map(|f| f.raw),
            nonce: c.nonce.map(|f| f.raw),
            voter: c.voter.map(|f| f.raw),
            commitment: c.commitment.map(|f| f.raw),
            max_choice: c.max_choice.map(|f| f.raw),
        }
    }
}

impl ConstraintSynthesizer<Fr> for CircuitShell {
    fn generate_constraints(self, cs: ConstraintSystemRef<Fr>) -> Result<(), SynthesisError> {
        let choice_var = FpVar::new_witness(cs.clone(), || {
            self.choice.ok_or(SynthesisError::AssignmentMissing)
        })?;
        let nonce_var = FpVar::new_witness(cs.clone(), || {
            self.nonce.ok_or(SynthesisError::AssignmentMissing)
        })?;
        let voter_var = FpVar::new_witness(cs.clone(), || {
            self.voter.ok_or(SynthesisError::AssignmentMissing)
        })?;
        let commitment_var = FpVar::new_input(cs.clone(), || {
            self.commitment.ok_or(SynthesisError::AssignmentMissing)
        })?;
        let max_choice_var = FpVar::new_input(cs.clone(), || {
            self.max_choice.ok_or(SynthesisError::AssignmentMissing)
        })?;
        choice_var.enforce_cmp(&max_choice_var, core::cmp::Ordering::Less, false)?;
        let computed_commitment = &choice_var + &nonce_var + &voter_var;
        computed_commitment.enforce_equal(&commitment_var)?;
        Ok(())
    }
}

fn setup_with_raw_key(max_choice: u64) -> (Prover, ark_groth16::ProvingKey<Bn254>) {
    let mut rng = StdRng::seed_from_u64(2024);
    let circuit = CircuitShell::from_circuit(VoteProofCircuit::new_without_witness(max_choice));
    let pk =
        Groth16::<Bn254>::generate_random_parameters_with_reduction(circuit, &mut rng).unwrap();
    let mut pk_bytes = Vec::new();
    pk.serialize_compressed(&mut pk_bytes).unwrap();
    let mut vk_bytes = Vec::new();
    pk.vk.serialize_compressed(&mut vk_bytes).unwrap();
    let prover = Prover::from_keys(&pk_bytes, &vk_bytes).unwrap();
    (prover, pk)
}

fn try_prove_vote(
    pk: &ark_groth16::ProvingKey<Bn254>,
    choice: u64,
    nonce: [u8; 32],
    voter: [u8; 20],
    max_choice: u64,
) -> Result<VoteProof, SynthesisError> {
    let mut rng = StdRng::seed_from_u64(choice.wrapping_mul(31).wrapping_add(7));
    let circuit_data = VoteProofCircuit::new_with_witness(choice, nonce, voter, max_choice);
    // The pairing library's prover rejects an unsatisfying assignment; the
    // verified statement check decides that up front.
    if circuit_data.statement_satisfied() == Some(false) {
        return Err(SynthesisError::Unsatisfiable);
    }
    let circuit = CircuitShell::from_circuit(circuit_data);
    let proof = Groth16::<Bn254>::create_random_proof_with_reduction(circuit, pk, &mut rng)?;
    let mut proof_bytes = Vec::new();
    proof.serialize_compressed(&mut proof_bytes).unwrap();
    Ok(assemble_vote_proof(proof_bytes, choice, &nonce, &voter, max_choice))
}

#[test]
fn test_setup() {
    let (prover, _pk) = setup_with_raw_key(3);
    assert!(prover.export_proving_key().is_ok());
    assert!(prover.export_verifying_key().is_ok());
}

#[test]
fn test_prove_and_verify() {
    let (prover, pk) = setup_with_raw_key(3);

    let choice = 1u64;
    let nonce = [42u8; 32];
    let voter = [1u8; 20];

    // Generate proof
    let proof = try_prove_vote(&pk, choice, nonce, voter, 3).unwrap();

    // The public inputs are the commitment's and the bound's hex encodings,
    // in that fixed order
    let commitment = zk_prover::commitment::compute_commitment(choice, &nonce, &voter);
    assert_eq!(proof.public_inputs.len(), 2);
    assert_eq!(
        proof.public_inputs[0],
        zk_prover::hexenc::fr_to_hex_string(&commitment)
    );
    assert_eq!(
        proof.public_inputs[1],
        zk_prover::hexenc::fr_to_hex_string(&zk_prover::field::FieldElement::from_u64(3))
    );

    // Verify proof
    let result = prover.verify_vote(&proof).unwrap();
    assert!(result);
}

#[test]
fn test_invalid_proof_fails() {
    let (prover, pk) = setup_with_raw_key(3);

    // Generate valid proof
    let proof = try_prove_vote(&pk, 1, [42u8; 32], [1u8; 20], 3).unwrap();

    // Flipping a byte of the proof must never leave it verifying as true
    let positions = [0usize, proof.proof.len() / 2, proof.proof.len() - 1];
    for &i in positions.iter() {
        let mut bad_proof = proof.clone();
        bad_proof.proof[i] ^= 0xFF;
        let result = prover.verify_vote(&bad_proof);
        assert!(result.is_err() || !result.unwrap());
    }

    // Any number of public inputs other than exactly two is an
    // invalid-parameters error, not a silent false
    let mut short = proof.clone();
    short.public_inputs.truncate(1);
    match prover.verify_vote(&short) {
        Err(ProverError::InvalidParameters) => {}
        other => panic!("expected an invalid-parameters error, got {:?}", other),
    }
    let mut long = proof.clone();
    long.public_inputs.push(long.public_inputs[0].clone());
    match prover.verify_vote(&long) {
        Err(ProverError::InvalidParameters) => {}
        other => panic!("expected an invalid-parameters error, got {:?}", other),
    }

    // An out-of-range choice never verifies as true
    match try_prove_vote(&pk, 5, [42u8; 32], [1u8; 20], 3) {
        Ok(bad_vote) => {
            let r = prover.verify_vote(&bad_vote);
            assert!(r.is_err() || !r.unwrap());
        }
        Err(_) => {
            // Failing at proof generation is an accepted outcome
        }
    }
}

#[test]
fn test_key_export_round_trip() {
    let (prover, _pk) = setup_with_raw_key(3);
    let pk_bytes = prover.export_proving_key().unwrap();
    let vk_bytes = prover.export_verifying_key().unwrap();
    let reloaded = Prover::from_keys(&pk_bytes, &vk_bytes).unwrap();
    assert_eq!(reloaded.export_proving_key().unwrap(), pk_bytes);
    assert_eq!(reloaded.export_verifying_key().unwrap(), vk_bytes);

    // Malformed key bytes are a serialization error
    match Prover::from_keys(&[1u8, 2, 3], &vk_bytes) {
        Err(e) => assert_eq!(e, ProverError::SerializationError),
        Ok(_) => panic!("expected a serialization error"),
    }
}
