//! The vote-validity circuit.
//!
//! The circuit proves that a vote is valid without revealing the choice.
//! Private witnesses: the choice and the nonce- and voter-derived field
//! elements. Public inputs, in this fixed order: the commitment, then the
//! choice bound. Constraints: the choice lies strictly below the bound
//! (compared over canonical representatives), and the in-circuit
//! recomputation of the commitment — field addition of the three private
//! variables, a stated placeholder for an algebraic hash gadget — equals the
//! public commitment.
//!
//! A circuit value is either structural (no witness, used once at setup, so
//! the key pair binds to the circuit's shape alone) or assigned (all values
//! set, used per proof).
//!
//! A constraint system under construction is modeled by its recorded state:
//! the vector of public-input values in allocation order, and whether some
//! recorded constraint is violated by the recorded assignment. The gadget
//! wrappers state how each call moves that state.

use vstd::prelude::*;
use ark_r1cs_std::alloc::AllocVar;
use ark_r1cs_std::eq::EqGadget;
use vstd::arithmetic::div_mod::{lemma_add_mod_noop, lemma_small_mod};
use crate::commitment::{commit_val, compute_commitment, digest_val};
use crate::error::ProverError;
use crate::field::{fr_modulus, fr_val, FieldElement};
use crate::types::ProverResult;

verus! {

/// Relies on `ark_relations::r1cs::SynthesisError`: the error raised when
/// constraint synthesis cannot complete.
#[verifier::external_type_specification]
#[verifier::external_body]
pub struct ExSynthesisError(ark_relations::r1cs::SynthesisError);

/// A rank-one constraint system under construction, held opaquely. Every
/// handle is created by [`new_constraint_system`], so it always points at a
/// real system in proving mode with matrix construction on.
#[verifier::external_body]
pub struct ConstraintSystemHandle {
    cs: ark_relations::r1cs::ConstraintSystemRef<ark_bn254::Fr>,
}

/// A field-element variable allocated in a constraint system, held opaquely.
/// Every value originates from the allocation and addition wrappers below,
/// so it always carries an assigned value.
#[verifier::external_body]
pub struct FieldVar {
    var: ark_r1cs_std::fields::fp::FpVar<ark_bn254::Fr>,
}

/// Whether a constraint system assigns concrete values as it is built (a
/// proving-mode system does; a setup-mode system records only the shape).
/// Every handle this library creates assigns values; the mode never changes
/// after creation.
pub uninterp spec fn cs_assigning(cs: ConstraintSystemHandle) -> bool;

/// The identity of the shared system behind a handle, stable as its recorded
/// state grows.
pub uninterp spec fn cs_id(cs: ConstraintSystemHandle) -> nat;

/// The values of the public-input variables recorded so far, in allocation
/// order.
pub uninterp spec fn cs_inputs(cs: ConstraintSystemHandle) -> Seq<nat>;

/// Whether some recorded constraint is violated by the recorded assignment.
pub uninterp spec fn cs_unsat(cs: ConstraintSystemHandle) -> bool;

/// The system a variable was allocated in.
pub uninterp spec fn var_sys(v: FieldVar) -> nat;

/// The canonical representative of the value assigned to a variable.
pub uninterp spec fn var_val(v: FieldVar) -> nat;

/// Half the field order rounded down: the comparison gadget bounds both of
/// its operands by this value.
pub open spec fn half_order() -> nat {
    ((fr_modulus() - 1) / 2) as nat
}

/// Relies on `ark_relations::r1cs::ConstraintSystem::new_ref`: a fresh
/// system in proving mode with matrix construction on; it requires witness
/// values as variables are allocated, and records no variable or constraint
/// yet.
#[verifier::external_body]
fn cs_new() -> (r: ConstraintSystemHandle)
    ensures
        cs_assigning(r),
        cs_inputs(r) == Seq::<nat>::empty(),
        !cs_unsat(r),
{
    ConstraintSystemHandle { cs: ark_relations::r1cs::ConstraintSystem::<ark_bn254::Fr>::new_ref() }
}

/// Relies on `ark_r1cs_std::alloc::AllocVar::new_witness` over
/// `ConstraintSystem::new_witness_variable`: in an assigning system the
/// value is read, a missing value is the assignment-missing error, and the
/// new variable carries the value; no public input or constraint is touched.
#[verifier::external_body]
fn alloc_witness_var(cs: &mut ConstraintSystemHandle, v: &Option<FieldElement>) -> (r: Result<
    FieldVar,
    ark_relations::r1cs::SynthesisError,
>)
    ensures
        cs_assigning(*final(cs)) == cs_assigning(*old(cs)),
        cs_id(*final(cs)) == cs_id(*old(cs)),
        cs_inputs(*final(cs)) == cs_inputs(*old(cs)),
        cs_unsat(*final(cs)) == cs_unsat(*old(cs)),
        cs_assigning(*old(cs)) ==> (r is Ok <==> v is Some),
        r is Ok ==> var_sys(r->Ok_0) == cs_id(*old(cs)),
        cs_assigning(*old(cs)) && r is Ok ==> var_val(r->Ok_0) == fr_val(v->0) && var_val(r->Ok_0)
            < fr_modulus(),
{
    match ark_r1cs_std::fields::fp::FpVar::new_witness(
        cs.cs.clone(),
        || v.as_ref().map(|f| f.raw).ok_or(ark_relations::r1cs::SynthesisError::AssignmentMissing),
    ) {
        Ok(var) => Ok(FieldVar { var }),
        Err(e) => Err(e),
    }
}

/// Relies on `ark_r1cs_std::alloc::AllocVar::new_input` over
/// `ConstraintSystem::new_input_variable`: as for witness allocation, but
/// the value joins the end of the public-input vector; no constraint is
/// touched.
#[verifier::external_body]
fn alloc_input_var(cs: &mut ConstraintSystemHandle, v: &Option<FieldElement>) -> (r: Result<
    FieldVar,
    ark_relations::r1cs::SynthesisError,
>)
    ensures
        cs_assigning(*final(cs)) == cs_assigning(*old(cs)),
        cs_id(*final(cs)) == cs_id(*old(cs)),
        cs_unsat(*final(cs)) == cs_unsat(*old(cs)),
        cs_assigning(*old(cs)) ==> (r is Ok <==> v is Some),
        r is Ok ==> var_sys(r->Ok_0) == cs_id(*old(cs)),
        cs_assigning(*old(cs)) && r is Ok ==> var_val(r->Ok_0) == fr_val(v->0) && var_val(r->Ok_0)
            < fr_modulus() && cs_inputs(*final(cs)) == cs_inputs(*old(cs)).push(fr_val(v->0)),
{
    match ark_r1cs_std::fields::fp::FpVar::new_input(
        cs.cs.clone(),
        || v.as_ref().map(|f| f.raw).ok_or(ark_relations::r1cs::SynthesisError::AssignmentMissing),
    ) {
        Ok(var) => Ok(FieldVar { var }),
        Err(e) => Err(e),
    }
}

/// Relies on `ark_r1cs_std`'s `FpVar::enforce_cmp` with `Ordering::Less` and
/// no equality: it enforces that both operands lie at or below half the
/// field order and that the left is strictly smaller, over canonical
/// representatives; the internal bit decompositions are witness variables,
/// so in a proving system the recorded constraints become violated exactly
/// when that conjunction fails. Public inputs are untouched, and on a
/// proving system with matrices the call cannot fail.
#[verifier::external_body]
fn enforce_less_than(cs: &mut ConstraintSystemHandle, a: &FieldVar, b: &FieldVar) -> (r: Result<
    (),
    ark_relations::r1cs::SynthesisError,
>)
    requires
        var_sys(*a) == cs_id(*old(cs)),
        var_sys(*b) == cs_id(*old(cs)),
    ensures
        cs_assigning(*final(cs)) == cs_assigning(*old(cs)),
        cs_id(*final(cs)) == cs_id(*old(cs)),
        cs_inputs(*final(cs)) == cs_inputs(*old(cs)),
        r is Ok,
        cs_assigning(*old(cs)) ==> cs_unsat(*final(cs)) == (cs_unsat(*old(cs)) || !(var_val(*a)
            < var_val(*b) && var_val(*a) <= half_order() && var_val(*b) <= half_order())),
{
    let _ = cs;
    a.var.enforce_cmp(&b.var, core::cmp::Ordering::Less, false)
}

/// Relies on `ark_r1cs_std`'s `EqGadget::enforce_equal`: one constraint that
/// the two variables are equal, violated exactly when their assigned values
/// differ; public inputs untouched; cannot fail on a proving system with
/// matrices.
#[verifier::external_body]
fn enforce_equal_vars(cs: &mut ConstraintSystemHandle, a: &FieldVar, b: &FieldVar) -> (r: Result<
    (),
    ark_relations::r1cs::SynthesisError,
>)
    requires
        var_sys(*a) == cs_id(*old(cs)),
        var_sys(*b) == cs_id(*old(cs)),
    ensures
        cs_assigning(*final(cs)) == cs_assigning(*old(cs)),
        cs_id(*final(cs)) == cs_id(*old(cs)),
        cs_inputs(*final(cs)) == cs_inputs(*old(cs)),
        r is Ok,
        cs_assigning(*old(cs)) ==> cs_unsat(*final(cs)) == (cs_unsat(*old(cs)) || var_val(*a)
            != var_val(*b)),
{
    let _ = cs;
    a.var.enforce_equal(&b.var)
}

/// Relies on `ark_r1cs_std`'s field-variable addition: a variable of the
/// same system whose assigned value is the field sum of the operands; it
/// adds no constraint and no allocation.
#[verifier::external_body]
fn fieldvar_add(a: &FieldVar, b: &FieldVar) -> (r: FieldVar)
    requires
        var_sys(*a) == var_sys(*b),
    ensures
        var_sys(r) == var_sys(*a),
        var_val(r) == (var_val(*a) + var_val(*b)) % fr_modulus(),
{
    FieldVar { var: &a.var + &b.var }
}

/// Relies on `ark_relations::r1cs::ConstraintSystem::is_satisfied`: on a
/// proving system the recorded assignment is present, so the call returns
/// whether it satisfies every recorded constraint.
#[verifier::external_body]
fn cs_is_satisfied(cs: &ConstraintSystemHandle) -> (r: Result<
    bool,
    ark_relations::r1cs::SynthesisError,
>)
    ensures
        cs_assigning(*cs) ==> r is Ok && r->Ok_0 == !cs_unsat(*cs),
{
    cs.cs.is_satisfied()
}

/// Open a fresh constraint system in proving mode: no inputs recorded, no
/// constraint violated.
pub fn new_constraint_system() -> (r: ConstraintSystemHandle)
    ensures
        cs_assigning(r),
        cs_inputs(r) == Seq::<nat>::empty(),
        !cs_unsat(r),
{
    cs_new()
}

/// Ask a constraint system whether its recorded assignment satisfies its
/// recorded constraints.
pub fn constraint_system_satisfied(cs: &ConstraintSystemHandle) -> (r: ProverResult<bool>)
    ensures
        cs_assigning(*cs) ==> r == ProverResult::<bool>::Ok(!cs_unsat(*cs)),
        r is Err ==> r->Err_0 == ProverError::ConstraintSystemError,
{
    match cs_is_satisfied(cs) {
        Ok(b) => Ok(b),
        Err(_) => Err(ProverError::ConstraintSystemError),
    }
}

/// The statement the circuit enforces of assigned values: the choice lies
/// strictly below the bound, and the commitment equals the field addition of
/// the three private values.
pub open spec fn vote_statement(
    choice: nat,
    nonce_d: nat,
    voter_d: nat,
    commitment: nat,
    max_choice: nat,
) -> bool {
    choice < max_choice && commitment == (choice + nonce_d + voter_d) % fr_modulus()
}

/// An assignment whose choice reaches the bound never satisfies the
/// statement: the range clause fails outright.
pub proof fn lemma_range_enforced(
    choice: nat,
    nonce_d: nat,
    voter_d: nat,
    commitment: nat,
    max_choice: nat,
)
    requires
        choice >= max_choice,
    ensures
        !vote_statement(choice, nonce_d, voter_d, commitment, max_choice),
{
}

/// The vote circuit: private witnesses and public inputs, each possibly
/// unassigned.
pub struct VoteProofCircuit {
    /// The vote choice (private witness).
    pub choice: Option<FieldElement>,
    /// The nonce-derived field element (private witness).
    pub nonce: Option<FieldElement>,
    /// The voter-derived field element (private witness).
    pub voter: Option<FieldElement>,
    /// The commitment (public input, first).
    pub commitment: Option<FieldElement>,
    /// The choice bound (public input, second).
    pub max_choice: Option<FieldElement>,
}

impl VoteProofCircuit {
    /// Whether every witness and public value is assigned.
    pub open spec fn fully_assigned(self) -> bool {
        self.choice is Some && self.nonce is Some && self.voter is Some && self.commitment is Some
            && self.max_choice is Some
    }

    /// The statement this circuit's assignment makes.
    pub open spec fn statement_holds(self) -> bool
        recommends
            self.fully_assigned(),
    {
        vote_statement(
            fr_val(self.choice->0),
            fr_val(self.nonce->0),
            fr_val(self.voter->0),
            fr_val(self.commitment->0),
            fr_val(self.max_choice->0),
        )
    }

    /// What the recorded constraints demand of this circuit's assignment:
    /// the vote statement, plus the comparison gadget's own bound that both
    /// compared operands lie at or below half the field order.
    pub open spec fn gadget_statement_holds(self) -> bool
        recommends
            self.fully_assigned(),
    {
        &&& fr_val(self.choice->0) <= half_order()
        &&& fr_val(self.max_choice->0) <= half_order()
        &&& self.statement_holds()
    }

    /// Create a circuit with every witness assigned from a vote.
    ///
    /// The commitment is recomputed here, so a circuit built by this
    /// constructor always satisfies its own commitment constraint; the range
    /// constraint holds exactly when `choice < max_choice`.
    pub fn new_with_witness(choice: u64, nonce: [u8; 32], voter: [u8; 20], max_choice: u64) -> (r:
        Self)
        ensures
            r.fully_assigned(),
            fr_val(r.choice->0) == choice as nat,
            fr_val(r.nonce->0) == digest_val(nonce@),
            fr_val(r.voter->0) == digest_val(voter@),
            fr_val(r.commitment->0) == commit_val(choice, nonce@, voter@),
            fr_val(r.max_choice->0) == max_choice as nat,
    {
        let choice_fr = FieldElement::from_u64(choice);
        let nonce_fr = crate::commitment::bytes_to_fr(nonce.as_slice());
        let voter_fr = crate::commitment::bytes_to_fr(voter.as_slice());
        let max_choice_fr = FieldElement::from_u64(max_choice);
        let commitment = compute_commitment(choice, &nonce, voter.as_slice());
        VoteProofCircuit {
            choice: Some(choice_fr),
            nonce: Some(nonce_fr),
            voter: Some(voter_fr),
            commitment: Some(commitment),
            max_choice: Some(max_choice_fr),
        }
    }

    /// Create a structural circuit: no witness, only the public bound, for
    /// the one-time setup that binds keys to the circuit's shape.
    pub fn new_without_witness(max_choice: u64) -> (r: Self)
        ensures
            r.choice is None,
            r.nonce is None,
            r.voter is None,
            r.commitment is None,
            r.max_choice is Some,
            fr_val(r.max_choice->0) == max_choice as nat,
    {
        VoteProofCircuit {
            choice: None,
            nonce: None,
            voter: None,
            commitment: None,
            max_choice: Some(FieldElement::from_u64(max_choice)),
        }
    }

    /// Whether the assignment satisfies the circuit's statement, decided
    /// over the values themselves; `None` when a value is unassigned.
    pub fn statement_satisfied(&self) -> (r: Option<bool>)
        ensures
            r is Some <==> self.fully_assigned(),
            self.fully_assigned() ==> r == Some(self.statement_holds()),
    {
        match (&self.choice, &self.nonce, &self.voter, &self.commitment, &self.max_choice) {
            (Some(choice), Some(nonce), Some(voter), Some(commitment), Some(max_choice)) => {
                let in_range = choice.less_than(max_choice);
                let recomputed = choice.add(nonce).add(voter);
                Some(in_range && recomputed.equals(commitment))
            },
            _ => None,
        }
    }

    /// Drive the constraints into a constraint system: allocate the three
    /// private witnesses, then the two public inputs — commitment first,
    /// bound second, an order the verifier relies on — then enforce the
    /// range and commitment constraints.
    ///
    /// In an assigning system, synthesis succeeds exactly on a fully
    /// assigned circuit; it then appends exactly the commitment and the
    /// bound, in that order, to the public-input vector, and the recorded
    /// constraints end up violated precisely when the gadget statement
    /// fails.
    pub fn generate_constraints(self, cs: &mut ConstraintSystemHandle) -> (r: ProverResult<()>)
        ensures
            cs_assigning(*final(cs)) == cs_assigning(*old(cs)),
            r is Err ==> r->Err_0 == ProverError::SynthesisError,
            cs_assigning(*old(cs)) ==> (r is Ok <==> self.fully_assigned()),
            cs_assigning(*old(cs)) && r is Ok ==> cs_inputs(*final(cs)) == cs_inputs(*old(cs)).push(
                fr_val(self.commitment->0),
            ).push(fr_val(self.max_choice->0)),
            cs_assigning(*old(cs)) && r is Ok ==> cs_unsat(*final(cs)) == (cs_unsat(*old(cs))
                || !self.gadget_statement_holds()),
    {
        let choice_var = match alloc_witness_var(cs, &self.choice) {
            Ok(v) => v,
            Err(_) => {
                return Err(ProverError::SynthesisError);
            },
        };
        let nonce_var = match alloc_witness_var(cs, &self.nonce) {
            Ok(v) => v,
            Err(_) => {
                return Err(ProverError::SynthesisError);
            },
        };
        let voter_var = match alloc_witness_var(cs, &self.voter) {
            Ok(v) => v,
            Err(_) => {
                return Err(ProverError::SynthesisError);
            },
        };
        let commitment_var = match alloc_input_var(cs, &self.commitment) {
            Ok(v) => v,
            Err(_) => {
                return Err(ProverError::SynthesisError);
            },
        };
        let max_choice_var = match alloc_input_var(cs, &self.max_choice) {
            Ok(v) => v,
            Err(_) => {
                return Err(ProverError::SynthesisError);
            },
        };
        match enforce_less_than(cs, &choice_var, &max_choice_var) {
            Ok(_) => (),
            Err(_) => {
                return Err(ProverError::SynthesisError);
            },
        };
        let computed_commitment = simulate_hash_constraint(&choice_var, &nonce_var, &voter_var);
        match enforce_equal_vars(cs, &computed_commitment, &commitment_var) {
            Ok(_) => (),
            Err(_) => {
                return Err(ProverError::SynthesisError);
            },
        };
        Ok(())
    }
}

/// A vote's compared values — the choice and the bound, both embeddings of
/// machine integers — lie far below the comparison gadget's half-order
/// bound, so for such a circuit the gadget statement is exactly the vote
/// statement.
pub proof fn lemma_vote_values_in_gadget_range(c: VoteProofCircuit)
    requires
        c.fully_assigned(),
        fr_val(c.choice->0) < 0x10000000000000000,
        fr_val(c.max_choice->0) < 0x10000000000000000,
    ensures
        c.gadget_statement_holds() == c.statement_holds(),
{
    assert(half_order()
        == 10944121435919637611123202872628637544274182200208017171849102093287904247808nat);
}

/// The in-circuit commitment recomputation: field addition of the three
/// private variables. A placeholder for an algebraic hash gadget, kept
/// bit-identical to [`compute_commitment`]: the resulting variable carries
/// the sum of the three values in the field.
fn simulate_hash_constraint(choice: &FieldVar, nonce: &FieldVar, voter: &FieldVar) -> (r: FieldVar)
    requires
        var_sys(*choice) == var_sys(*nonce),
        var_sys(*nonce) == var_sys(*voter),
    ensures
        var_sys(r) == var_sys(*choice),
        var_val(*voter) < fr_modulus() ==> var_val(r) == (var_val(*choice) + var_val(*nonce)
            + var_val(*voter)) % fr_modulus(),
{
    let sum = fieldvar_add(choice, nonce);
    let r = fieldvar_add(&sum, voter);
    proof {
        if var_val(*voter) < fr_modulus() {
            let a = var_val(*choice) + var_val(*nonce);
            let b = var_val(*voter);
            let m = fr_modulus();
            lemma_small_mod(b, m);
            lemma_add_mod_noop(a as int, b as int, m as int);
            lemma_small_mod(((a % m) + (b % m)) % m, m);
        }
    }
    r
}

} // verus!

