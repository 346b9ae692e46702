//! The prover workflow: keys, proof assembly, and verification.
//!
//! The proving and verifying keys come out of the one-time Groth16 setup and
//! are immutable afterwards; here each is held opaquely and identified by its
//! canonical compressed byte encoding. The Groth16 parameter generation and
//! proof creation go through the pairing library's circuit-synthesis trait,
//! which only an unverified shell can implement, so the shell draws the raw
//! proof and keys; everything around them — loading, exporting, assembling
//! the wire entity, and verification — is decided here.

use vstd::prelude::*;
use ark_serialize::{CanonicalDeserialize, CanonicalSerialize};
use crate::commitment::commit_val;
use crate::error::ProverError;
use crate::field::{fr_val, le_bytes32, FieldElement};
use crate::hexenc::{fr_to_hex_string, hex_fr_ok, hex_fr_val, hex_of, hex_string_to_fr};
use crate::types::{ProverResult, VoteProof};

verus! {

/// A Groth16 proving key over BN254, held opaquely. The raw key is exposed
/// for the unverified shell that runs proof creation; no verified code reads
/// it, and the contracts below speak of keys the pairing library produced or
/// validated.
#[verifier::external_body]
pub struct ProvingKey {
    pub raw: ark_groth16::ProvingKey<ark_bn254::Bn254>,
}

/// A Groth16 verifying key over BN254, held opaquely.
#[verifier::external_body]
pub struct VerifyingKey {
    pub raw: ark_groth16::VerifyingKey<ark_bn254::Bn254>,
}

/// A Groth16 proof over BN254, held opaquely while being verified.
#[verifier::external_body]
pub struct ProofObject {
    raw: ark_groth16::Proof<ark_bn254::Bn254>,
}

/// The canonical compressed byte encoding of a proving key.
pub uninterp spec fn pk_bytes(k: ProvingKey) -> Seq<u8>;

/// The canonical compressed byte encoding of a verifying key.
pub uninterp spec fn vk_bytes(k: VerifyingKey) -> Seq<u8>;

/// The canonical compressed byte encoding of a proof.
pub uninterp spec fn proof_enc(p: ProofObject) -> Seq<u8>;

/// What proving-key deserialization makes of a byte string: `None` when no
/// prefix of it is the encoding of a valid key, else the canonical encoding
/// of the key it reads.
pub uninterp spec fn pk_parse(b: Seq<u8>) -> Option<Seq<u8>>;

/// What verifying-key deserialization makes of a byte string.
pub uninterp spec fn vk_parse(b: Seq<u8>) -> Option<Seq<u8>>;

/// What proof deserialization makes of a byte string.
pub uninterp spec fn proof_parse(b: Seq<u8>) -> Option<Seq<u8>>;

/// The outcome of the Groth16 pairing check: a deterministic function of the
/// verifying key, the proof, and the two public inputs — commitment first,
/// bound second. `Some(b)` is the verdict `b`; `None` stands for the one
/// error path, the check failing to evaluate (an input count that does not
/// fit the key, or a non-invertible pairing product).
pub uninterp spec fn groth16_verdict(vk: Seq<u8>, proof: Seq<u8>, commitment: nat, bound: nat) -> Option<bool>;

/// Relies on the derived `CanonicalDeserialize` for
/// `ark_groth16::ProvingKey` with compression and validation: succeeds
/// exactly when the bytes begin with the canonical compressed encoding of a
/// valid key, and reads that key.
#[verifier::external_body]
fn pk_deserialize(bytes: &[u8]) -> (r: Result<ProvingKey, ark_serialize::SerializationError>)
    ensures
        r is Ok <==> pk_parse(bytes@) is Some,
        r is Ok ==> pk_bytes(r->Ok_0) == pk_parse(bytes@)->0,
{
    match ark_groth16::ProvingKey::deserialize_compressed(bytes) {
        Ok(raw) => Ok(ProvingKey { raw }),
        Err(e) => Err(e),
    }
}

/// Relies on the derived `CanonicalDeserialize` for
/// `ark_groth16::VerifyingKey`, as for the proving key.
#[verifier::external_body]
fn vk_deserialize(bytes: &[u8]) -> (r: Result<VerifyingKey, ark_serialize::SerializationError>)
    ensures
        r is Ok <==> vk_parse(bytes@) is Some,
        r is Ok ==> vk_bytes(r->Ok_0) == vk_parse(bytes@)->0,
{
    match ark_groth16::VerifyingKey::deserialize_compressed(bytes) {
        Ok(raw) => Ok(VerifyingKey { raw }),
        Err(e) => Err(e),
    }
}

/// Relies on the derived `CanonicalSerialize` for `ark_groth16::ProvingKey`:
/// the canonical compressed encoding, a function of the key alone, which
/// deserialization reads back to an equal key (writing to a vector cannot
/// fail).
#[verifier::external_body]
fn pk_serialize(k: &ProvingKey) -> (r: Vec<u8>)
    ensures
        r@ == pk_bytes(*k),
        pk_parse(r@) == Some(pk_bytes(*k)),
{
    let mut bytes = Vec::new();
    k.raw.serialize_compressed(&mut bytes).unwrap();
    bytes
}

/// Relies on the derived `CanonicalSerialize` for
/// `ark_groth16::VerifyingKey`, as for the proving key.
#[verifier::external_body]
fn vk_serialize(k: &VerifyingKey) -> (r: Vec<u8>)
    ensures
        r@ == vk_bytes(*k),
        vk_parse(r@) == Some(vk_bytes(*k)),
{
    let mut bytes = Vec::new();
    k.raw.serialize_compressed(&mut bytes).unwrap();
    bytes
}

/// Relies on the derived `CanonicalDeserialize` for `ark_groth16::Proof`
/// with compression and validation: succeeds exactly when the bytes begin
/// with the canonical compressed encoding of well-formed curve points.
#[verifier::external_body]
fn proof_deserialize(bytes: &[u8]) -> (r: Result<ProofObject, ark_serialize::SerializationError>)
    ensures
        r is Ok <==> proof_parse(bytes@) is Some,
        r is Ok ==> proof_enc(r->Ok_0) == proof_parse(bytes@)->0,
{
    match ark_groth16::Proof::deserialize_compressed(bytes) {
        Ok(raw) => Ok(ProofObject { raw }),
        Err(e) => Err(e),
    }
}

/// Relies on `ark_groth16::prepare_verifying_key` and
/// `Groth16::verify_proof`: the pairing check and its error path are both
/// deterministic functions of the key, the proof and the public inputs
/// (nothing random enters), so the whole outcome carries one name: equal
/// arguments give equal results, across calls and across equally-encoded
/// keys.
#[verifier::external_body]
fn groth16_verify(
    vk: &VerifyingKey,
    proof: &ProofObject,
    commitment: &FieldElement,
    bound: &FieldElement,
) -> (r: Result<bool, ark_relations::r1cs::SynthesisError>)
    ensures
        r is Ok <==> groth16_verdict(
            vk_bytes(*vk),
            proof_enc(*proof),
            fr_val(*commitment),
            fr_val(*bound),
        ) is Some,
        r is Ok ==> r->Ok_0 == groth16_verdict(
            vk_bytes(*vk),
            proof_enc(*proof),
            fr_val(*commitment),
            fr_val(*bound),
        )->0,
{
    let pvk = ark_groth16::prepare_verifying_key(&vk.raw);
    ark_groth16::Groth16::<ark_bn254::Bn254>::verify_proof(
        &pvk,
        &proof.raw,
        &[commitment.raw, bound.raw],
    )
}

/// Assemble the wire entity around a freshly drawn proof's bytes: recompute
/// the commitment from the vote and emit the two public inputs in their
/// fixed order — the commitment's hex encoding first, the bound's second.
pub fn assemble_vote_proof(
    proof_bytes: Vec<u8>,
    choice: u64,
    nonce: &[u8; 32],
    voter: &[u8; 20],
    max_choice: u64,
) -> (r: VoteProof)
    ensures
        r.proof@ == proof_bytes@,
        r.public_inputs@.len() == 2,
        r.public_inputs@[0]@ == hex_of(le_bytes32(commit_val(choice, nonce@, voter@))),
        r.public_inputs@[1]@ == hex_of(le_bytes32(max_choice as nat)),
{
    let commitment = crate::commitment::compute_commitment(choice, nonce, voter.as_slice());
    let max_choice_fr = FieldElement::from_u64(max_choice);
    let mut public_inputs: Vec<String> = Vec::new();
    public_inputs.push(fr_to_hex_string(&commitment));
    public_inputs.push(fr_to_hex_string(&max_choice_fr));
    VoteProof { proof: proof_bytes, public_inputs }
}

/// What the prover emits, the verifier reads back: the two public inputs of
/// an assembled vote proof are accepted by the hex decoder and denote
/// exactly the commitment and the bound, so verification of an assembled
/// proof always reaches the pairing check with those two values.
pub proof fn lemma_assembled_inputs_decode(
    choice: u64,
    nonce: Seq<u8>,
    voter: Seq<u8>,
    max_choice: u64,
)
    ensures
        hex_fr_ok(hex_of(le_bytes32(commit_val(choice, nonce, voter)))),
        hex_fr_val(hex_of(le_bytes32(commit_val(choice, nonce, voter)))) == commit_val(
            choice,
            nonce,
            voter,
        ),
        hex_fr_ok(hex_of(le_bytes32(max_choice as nat))),
        hex_fr_val(hex_of(le_bytes32(max_choice as nat))) == max_choice as nat,
{
    let m = crate::field::fr_modulus();
    vstd::arithmetic::div_mod::lemma_mod_bound(
        (choice as nat + crate::commitment::digest_val(nonce)
            + crate::commitment::digest_val(voter)) as int,
        m as int,
    );
    crate::field::lemma_pow256_values();
    crate::hexenc::lemma_field_hex_round_trip(commit_val(choice, nonce, voter));
    crate::hexenc::lemma_field_hex_round_trip(max_choice as nat);
}

/// The prover: an immutable Groth16 key pair, shared read-only by proof and
/// verification calls.
pub struct Prover {
    proving_key: ProvingKey,
    verifying_key: VerifyingKey,
}

impl Prover {
    /// The canonical encoding of the held proving key.
    pub closed spec fn pk_view(self) -> Seq<u8> {
        pk_bytes(self.proving_key)
    }

    /// The canonical encoding of the held verifying key.
    pub closed spec fn vk_view(self) -> Seq<u8> {
        vk_bytes(self.verifying_key)
    }

    /// Load a key pair from exported bytes. Succeeds exactly when both byte
    /// strings parse as keys, and holds keys with those canonical encodings.
    pub fn from_keys(pk_in: &[u8], vk_in: &[u8]) -> (r: ProverResult<Self>)
        ensures
            r is Ok <==> (pk_parse(pk_in@) is Some && vk_parse(vk_in@) is Some),
            r is Ok ==> r->Ok_0.pk_view() == pk_parse(pk_in@)->0 && r->Ok_0.vk_view() == vk_parse(
                vk_in@,
            )->0,
            r is Err ==> r->Err_0 == ProverError::SerializationError,
    {
        let proving_key = match pk_deserialize(pk_in) {
            Ok(k) => k,
            Err(_) => {
                return Err(ProverError::SerializationError);
            },
        };
        let verifying_key = match vk_deserialize(vk_in) {
            Ok(k) => k,
            Err(_) => {
                return Err(ProverError::SerializationError);
            },
        };
        Ok(Prover { proving_key, verifying_key })
    }

    /// Wrap a key pair handed over by the shell that ran the setup.
    pub fn from_key_objects(proving_key: ProvingKey, verifying_key: VerifyingKey) -> (r: Self)
        ensures
            r.pk_view() == pk_bytes(proving_key),
            r.vk_view() == vk_bytes(verifying_key),
    {
        Prover { proving_key, verifying_key }
    }

    /// Export the proving key as its canonical bytes; loading them back
    /// yields a key with the same encoding.
    pub fn export_proving_key(&self) -> (r: ProverResult<Vec<u8>>)
        ensures
            r is Ok,
            r->Ok_0@ == self.pk_view(),
            pk_parse(r->Ok_0@) == Some(self.pk_view()),
    {
        Ok(pk_serialize(&self.proving_key))
    }

    /// Export the verifying key as its canonical bytes.
    pub fn export_verifying_key(&self) -> (r: ProverResult<Vec<u8>>)
        ensures
            r is Ok,
            r->Ok_0@ == self.vk_view(),
            vk_parse(r->Ok_0@) == Some(self.vk_view()),
    {
        Ok(vk_serialize(&self.verifying_key))
    }

    /// Get the verifying key.
    pub fn verifying_key(&self) -> (r: &VerifyingKey)
        ensures
            vk_bytes(*r) == self.vk_view(),
    {
        &self.verifying_key
    }

    /// Verify a vote proof.
    ///
    /// Malformed proof bytes or hex inputs are a serialization error; any
    /// number of public inputs other than exactly two is an
    /// invalid-parameters error, never a silent `false`; on a well-formed
    /// proof the result is the pairing check's deterministic verdict over
    /// the commitment and the bound, in that order, or a verification-failed
    /// error exactly when that check cannot be evaluated.
    pub fn verify_vote(&self, proof: &VoteProof) -> (r: ProverResult<bool>)
        ensures
            proof_parse(proof.proof@) is None ==> r is Err && r->Err_0
                == ProverError::SerializationError,
            proof_parse(proof.proof@) is Some && proof.public_inputs@.len() != 2 ==> r is Err
                && r->Err_0 == ProverError::InvalidParameters,
            proof_parse(proof.proof@) is Some && proof.public_inputs@.len() == 2 && !(hex_fr_ok(
                proof.public_inputs@[0]@,
            ) && hex_fr_ok(proof.public_inputs@[1]@)) ==> r is Err && r->Err_0
                == ProverError::SerializationError,
            proof_parse(proof.proof@) is Some && proof.public_inputs@.len() == 2 && hex_fr_ok(
                proof.public_inputs@[0]@,
            ) && hex_fr_ok(proof.public_inputs@[1]@) ==> {
                &&& r is Ok <==> groth16_verdict(
                    self.vk_view(),
                    proof_parse(proof.proof@)->0,
                    hex_fr_val(proof.public_inputs@[0]@),
                    hex_fr_val(proof.public_inputs@[1]@),
                ) is Some
                &&& r is Ok ==> r->Ok_0 == groth16_verdict(
                    self.vk_view(),
                    proof_parse(proof.proof@)->0,
                    hex_fr_val(proof.public_inputs@[0]@),
                    hex_fr_val(proof.public_inputs@[1]@),
                )->0
                &&& r is Err ==> r->Err_0 == ProverError::VerificationFailed
            },
    {
        let proof_obj = match proof_deserialize(proof.proof.as_slice()) {
            Ok(p) => p,
            Err(_) => {
                return Err(ProverError::SerializationError);
            },
        };
        if proof.public_inputs.len() != 2 {
            return Err(ProverError::InvalidParameters);
        }
        let commitment = match hex_string_to_fr(proof.public_inputs[0].as_str()) {
            Ok(c) => c,
            Err(e) => {
                return Err(e);
            },
        };
        let max_choice = match hex_string_to_fr(proof.public_inputs[1].as_str()) {
            Ok(m) => m,
            Err(e) => {
                return Err(e);
            },
        };
        match groth16_verify(&self.verifying_key, &proof_obj, &commitment, &max_choice) {
            Ok(result) => Ok(result),
            Err(_) => Err(ProverError::VerificationFailed),
        }
    }
}

} // verus!

