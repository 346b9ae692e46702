//! The vote commitment.
//!
//! A commitment binds `(choice, nonce, voter)` to one field element: the
//! choice is embedded directly, the nonce and the voter identifier each go
//! through a digest truncated to its low 31 bytes (so the value lies strictly
//! inside the field), and the three elements are added in the field. The
//! additive combination is a stated placeholder for an algebraic hash gadget,
//! kept exactly as specified so that the in-circuit constraint and this
//! off-circuit function stay bit-identical; it is not itself a
//! collision-resistant commitment scheme.

use vstd::prelude::*;
use sha2::{Digest, Sha256};
use crate::field::{fr_modulus, fr_val, le_val, pow256, FieldElement};
use crate::field::{lemma_le_val_take_mod, lemma_pow256_pos, lemma_pow256_values};
use vstd::arithmetic::div_mod::{lemma_add_mod_noop, lemma_mod_bound, lemma_small_mod};

verus! {

/// The 32-byte digest of a byte string, a function of the input alone.
pub uninterp spec fn sha256_of(b: Seq<u8>) -> Seq<u8>;

/// The field element a byte string is mapped to: its digest, truncated to
/// the low 31 bytes and read little-endian. The result is below
/// `pow256(31)`, strictly inside the field.
pub open spec fn digest_val(b: Seq<u8>) -> nat {
    le_val(sha256_of(b)) % pow256(31)
}

/// The commitment to a vote: the choice plus the nonce and voter digests,
/// added in the field.
pub open spec fn commit_val(choice: u64, nonce: Seq<u8>, voter: Seq<u8>) -> nat {
    (choice as nat + digest_val(nonce) + digest_val(voter)) % fr_modulus()
}

/// Relies on `sha2::Sha256`: a 32-byte digest, a function of the input
/// bytes alone.
#[verifier::external_body]
fn sha256(bytes: &[u8]) -> (r: Vec<u8>)
    ensures
        r@ == sha256_of(bytes@),
        r@.len() == 32,
{
    let mut hasher = Sha256::new();
    hasher.update(bytes);
    hasher.finalize().to_vec()
}

/// Map a byte string to a field element through the truncated digest.
pub fn bytes_to_fr(bytes: &[u8]) -> (r: FieldElement)
    ensures
        fr_val(r) == digest_val(bytes@),
{
    let digest = sha256(bytes);
    let mut low = Vec::<u8>::new();
    let mut i: usize = 0;
    while i < 31
        invariant
            i <= 31,
            digest@.len() == 32,
            low@ =~= digest@.take(i as int),
        decreases 31 - i,
    {
        low.push(digest[i]);
        i = i + 1;
    }
    let r = FieldElement::from_le_bytes_mod_order(low.as_slice());
    proof {
        lemma_le_val_take_mod(digest@, 31);
        lemma_pow256_pos(31);
        lemma_mod_bound(le_val(sha256_of(bytes@)) as int, pow256(31) as int);
        lemma_pow256_values();
        lemma_small_mod(digest_val(bytes@), fr_modulus());
    }
    r
}

/// Compute the commitment to a vote off-circuit.
///
/// The result is `commit_val(choice, nonce, voter)`: a function of the
/// arguments alone, so repeated calls on equal inputs return equal elements.
pub fn compute_commitment(choice: u64, nonce: &[u8; 32], voter: &[u8]) -> (r: FieldElement)
    ensures
        fr_val(r) == commit_val(choice, nonce@, voter@),
{
    let choice_fr = FieldElement::from_u64(choice);
    let nonce_fr = bytes_to_fr(nonce.as_slice());
    let voter_fr = bytes_to_fr(voter);
    let sum = choice_fr.add(&nonce_fr);
    let r = sum.add(&voter_fr);
    proof {
        let c = choice as nat;
        let dn = digest_val(nonce@);
        let dv = digest_val(voter@);
        let m = fr_modulus();
        lemma_pow256_pos(31);
        lemma_mod_bound(le_val(sha256_of(voter@)) as int, pow256(31) as int);
        lemma_pow256_values();
        lemma_small_mod(dv, m);
        lemma_add_mod_noop((c + dn) as int, dv as int, m as int);
        lemma_small_mod(((c + dn) % m) as nat, m);
        assert(fr_val(r) == (c + dn + dv) % m);
    }
    r
}

/// Distinct choices commit to distinct values under the same nonce and
/// voter: both sums stay strictly below the field order, so the addition
/// never wraps and the choice shifts the commitment injectively.
pub proof fn lemma_commit_sensitive(c1: u64, c2: u64, nonce: Seq<u8>, voter: Seq<u8>)
    requires
        c1 != c2,
    ensures
        commit_val(c1, nonce, voter) != commit_val(c2, nonce, voter),
{
    let dn = digest_val(nonce);
    let dv = digest_val(voter);
    let m = fr_modulus();
    lemma_pow256_pos(31);
    lemma_mod_bound(le_val(sha256_of(nonce)) as int, pow256(31) as int);
    lemma_mod_bound(le_val(sha256_of(voter)) as int, pow256(31) as int);
    lemma_pow256_values();
    lemma_small_mod(c1 as nat + dn + dv, m);
    lemma_small_mod(c2 as nat + dn + dv, m);
}

} // verus!
