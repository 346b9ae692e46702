//! The scalar field of the proof system.
//!
//! A field element is held opaquely (the pairing library owns its
//! representation); its mathematical value is its canonical integer
//! representative in `[0, fr_modulus())`, written `fr_val`. Byte strings are
//! read little-endian, the canonical fixed-width encoding of the field.

use vstd::prelude::*;
use ark_serialize::{CanonicalDeserialize, CanonicalSerialize};

verus! {

/// An element of the BN254 scalar field, held opaquely. The raw element is
/// exposed for unverified callers that hand it to the pairing library; no
/// verified code reads it, and the contracts below speak of values this
/// library constructed (the pairing library keeps every element reduced).
#[verifier::external_body]
pub struct FieldElement {
    pub raw: ark_bn254::Fr,
}

/// Relies on `ark_serialize::SerializationError`: the error raised when a
/// canonical encoding cannot be read or written.
#[verifier::external_type_specification]
#[verifier::external_body]
pub struct ExSerializationError(ark_serialize::SerializationError);

/// The canonical integer representative of a field element, in
/// `[0, fr_modulus())`.
pub uninterp spec fn fr_val(x: FieldElement) -> nat;

/// The order of the BN254 scalar field (a prime).
pub open spec fn fr_modulus() -> nat {
    21888242871839275222246405745257275088548364400416034343698204186575808495617nat
}

/// 256 raised to the power `n`: the weight of byte `n` in a little-endian
/// byte string.
pub open spec fn pow256(n: nat) -> nat
    decreases n,
{
    if n == 0 {
        1
    } else {
        256 * pow256((n - 1) as nat)
    }
}

/// The integer a byte string denotes when read little-endian.
pub open spec fn le_val(s: Seq<u8>) -> nat
    decreases s.len(),
{
    if s.len() == 0 {
        0
    } else {
        s[0] as nat + 256 * le_val(s.drop_first())
    }
}

/// The `n`-byte little-endian encoding of an integer (taken modulo
/// `pow256(n)`).
pub open spec fn le_bytes(v: nat, n: nat) -> Seq<u8> {
    Seq::new(n, |i: int| ((v / pow256(i as nat)) % 256) as u8)
}

/// The 32-byte little-endian encoding of an integer below `pow256(32)`: the
/// canonical fixed-width encoding of a field element's representative.
pub open spec fn le_bytes32(v: nat) -> Seq<u8> {
    le_bytes(v, 32)
}

/// The byte weights written out up to `pow256(32)`, and the places of the
/// field order among them: two truncated digests and a machine integer
/// together stay below it, and every representative fits in 32 bytes.
pub proof fn lemma_pow256_values()
    ensures
        pow256(31) == 452312848583266388373324160190187140051835877600158453279131187530910662656nat,
        0x10000000000000000nat + 2 * pow256(31) < fr_modulus(),
        fr_modulus() < pow256(32),
{
    assert(pow256(0) == 1nat);
    assert(pow256(1) == 256nat);
    assert(pow256(2) == 65536nat);
    assert(pow256(3) == 16777216nat);
    assert(pow256(4) == 4294967296nat);
    assert(pow256(5) == 1099511627776nat);
    assert(pow256(6) == 281474976710656nat);
    assert(pow256(7) == 72057594037927936nat);
    assert(pow256(8) == 18446744073709551616nat);
    assert(pow256(9) == 4722366482869645213696nat);
    assert(pow256(10) == 1208925819614629174706176nat);
    assert(pow256(11) == 309485009821345068724781056nat);
    assert(pow256(12) == 79228162514264337593543950336nat);
    assert(pow256(13) == 20282409603651670423947251286016nat);
    assert(pow256(14) == 5192296858534827628530496329220096nat);
    assert(pow256(15) == 1329227995784915872903807060280344576nat);
    assert(pow256(16) == 340282366920938463463374607431768211456nat);
    assert(pow256(17) == 87112285931760246646623899502532662132736nat);
    assert(pow256(18) == 22300745198530623141535718272648361505980416nat);
    assert(pow256(19) == 5708990770823839524233143877797980545530986496nat);
    assert(pow256(20) == 1461501637330902918203684832716283019655932542976nat);
    assert(pow256(21) == 374144419156711147060143317175368453031918731001856nat);
    assert(pow256(22) == 95780971304118053647396689196894323976171195136475136nat);
    assert(pow256(23) == 24519928653854221733733552434404946937899825954937634816nat);
    assert(pow256(24) == 6277101735386680763835789423207666416102355444464034512896nat);
    assert(pow256(25) == 1606938044258990275541962092341162602522202993782792835301376nat);
    assert(pow256(26) == 411376139330301510538742295639337626245683966408394965837152256nat);
    assert(pow256(27) == 105312291668557186697918027683670432318895095400549111254310977536nat);
    assert(pow256(28) == 26959946667150639794667015087019630673637144422540572481103610249216nat);
    assert(pow256(29) == 6901746346790563787434755862277025452451108972170386555162524223799296nat);
    assert(pow256(30) == 1766847064778384329583297500742918515827483896875618958121606201292619776nat);
    assert(pow256(31) == 452312848583266388373324160190187140051835877600158453279131187530910662656nat);
    assert(pow256(32) == 115792089237316195423570985008687907853269984665640564039457584007913129639936nat);
}

/// Reading back the little-endian encoding of `v` yields `v` modulo the
/// encoding's capacity.
pub proof fn lemma_le_val_le_bytes(v: nat, n: nat)
    ensures
        le_val(le_bytes(v, n)) == v % pow256(n),
    decreases n,
{
    if n == 0 {
        assert(le_bytes(v, 0).len() == 0);
        assert(pow256(0) == 1);
        assert(v % 1 == 0) by (nonlinear_arith);
    } else {
        let s = le_bytes(v, n);
        let t = le_bytes(v / 256, (n - 1) as nat);
        lemma_pow256_pos((n - 1) as nat);
        assert(pow256(0) == 1);
        assert(s[0] == ((v / pow256(0)) % 256) as u8);
        assert(v / 1 == v);
        assert forall|i: int| 0 <= i < n - 1 implies s.drop_first()[i] == t[i] by {
            lemma_pow256_pos(i as nat);
            vstd::arithmetic::div_mod::lemma_div_denominator(v as int, 256, pow256(i as nat) as int);
            assert(pow256((i + 1) as nat) == 256 * pow256(i as nat));
        }
        assert(s.drop_first() =~= t);
        lemma_le_val_le_bytes(v / 256, (n - 1) as nat);
        assert(le_val(s) == v % 256 + 256 * ((v / 256) % pow256((n - 1) as nat)));
        vstd::arithmetic::div_mod::lemma_mod_breakdown(v as int, 256, pow256((n - 1) as nat) as int);
        assert(pow256(n) == 256 * pow256((n - 1) as nat));
    }
}

pub proof fn lemma_pow256_pos(n: nat)
    ensures
        pow256(n) >= 1,
    decreases n,
{
    if n > 0 {
        lemma_pow256_pos((n - 1) as nat);
    }
}

/// A byte string of length `n` denotes a value below `pow256(n)`.
pub proof fn lemma_le_val_bound(s: Seq<u8>)
    ensures
        le_val(s) < pow256(s.len() as nat),
    decreases s.len(),
{
    if s.len() == 0 {
    } else {
        let t = s.drop_first();
        lemma_le_val_bound(t);
        assert(le_val(t) + 1 <= pow256(t.len() as nat));
        assert(256 * le_val(t) + 256 <= 256 * pow256(t.len() as nat)) by (nonlinear_arith)
            requires
                le_val(t) + 1 <= pow256(t.len() as nat),
        ;
        assert(pow256(s.len() as nat) == 256 * pow256(t.len() as nat));
    }
}

/// Splitting a byte string at `k` splits its value: the low `k` bytes carry
/// the value modulo `pow256(k)`.
pub proof fn lemma_le_val_split(s: Seq<u8>, k: nat)
    requires
        k <= s.len(),
    ensures
        le_val(s) == le_val(s.take(k as int)) + pow256(k) * le_val(s.skip(k as int)),
    decreases k,
{
    if k == 0 {
        assert(s.take(0) =~= Seq::<u8>::empty());
        assert(s.skip(0) =~= s);
        assert(le_val(s.take(0)) == 0);
        assert(pow256(0) == 1);
        assert(le_val(s) == le_val(s.take(k as int)) + pow256(k) * le_val(s.skip(k as int)));
    } else {
        let t = s.drop_first();
        lemma_le_val_split(t, (k - 1) as nat);
        assert(s.take(k as int).drop_first() =~= t.take(k as int - 1));
        assert(s.skip(k as int) =~= t.skip(k as int - 1));
        assert(s.take(k as int).len() == k);
        assert(le_val(s.take(k as int)) == s[0] as nat + 256 * le_val(t.take(k as int - 1)));
        let a = le_val(t.take(k as int - 1));
        let b = le_val(t.skip(k as int - 1));
        let p = pow256((k - 1) as nat);
        assert(le_val(t) == a + p * b);
        assert(le_val(s) == s[0] as nat + 256 * le_val(t));
        assert(256 * (a + p * b) == 256 * a + (256 * p) * b) by (nonlinear_arith);
        assert(pow256(k) == 256 * p);
        assert(le_val(s.skip(k as int)) == b);
        assert(le_val(s) == (s[0] as nat + 256 * a) + (256 * p) * b);
        assert(le_val(s) == le_val(s.take(k as int)) + pow256(k) * b);
    }
}

/// The value modulo `pow256(k)` of a byte string is the value of its first
/// `k` bytes.
pub proof fn lemma_le_val_take_mod(s: Seq<u8>, k: nat)
    requires
        k <= s.len(),
    ensures
        le_val(s.take(k as int)) == le_val(s) % pow256(k),
{
    lemma_le_val_split(s, k);
    let lo = le_val(s.take(k as int));
    let hi = le_val(s.skip(k as int));
    let p = pow256(k);
    assert(s.take(k as int).len() == k);
    lemma_le_val_bound(s.take(k as int));
    lemma_pow256_pos(k);
    assert((lo + p * hi) % p == lo) by (nonlinear_arith)
        requires
            lo < p,
            0 < p,
    ;
}

impl FieldElement {
    /// Relies on `ark_ff::Fp::from(u64)`: embeds an integer into the field;
    /// every `u64` is below the modulus, so the representative is the integer
    /// itself.
    #[verifier::external_body]
    pub fn from_u64(n: u64) -> (r: FieldElement)
        ensures
            fr_val(r) == n as nat,
    {
        FieldElement { raw: ark_bn254::Fr::from(n) }
    }

    /// Relies on `ark_ff::Fp::from_le_bytes_mod_order`: reads the bytes
    /// little-endian and reduces modulo the field order.
    #[verifier::external_body]
    pub fn from_le_bytes_mod_order(bytes: &[u8]) -> (r: FieldElement)
        ensures
            fr_val(r) == le_val(bytes@) % fr_modulus(),
    {
        FieldElement { raw: ark_ff::PrimeField::from_le_bytes_mod_order(bytes) }
    }

    /// Relies on `ark_ff::Fp`'s field addition: representatives add modulo
    /// the field order.
    #[verifier::external_body]
    pub fn add(&self, other: &FieldElement) -> (r: FieldElement)
        ensures
            fr_val(r) == (fr_val(*self) + fr_val(*other)) % fr_modulus(),
    {
        FieldElement { raw: self.raw + other.raw }
    }

    /// Relies on `ark_ff::Fp`'s ordering: elements compare as their
    /// canonical integer representatives.
    #[verifier::external_body]
    pub fn less_than(&self, other: &FieldElement) -> (r: bool)
        ensures
            r == (fr_val(*self) < fr_val(*other)),
    {
        self.raw < other.raw
    }

    /// Relies on `ark_ff::Fp`'s equality: elements are equal exactly when
    /// their canonical representatives are.
    #[verifier::external_body]
    pub fn equals(&self, other: &FieldElement) -> (r: bool)
        ensures
            r == (fr_val(*self) == fr_val(*other)),
    {
        self.raw == other.raw
    }

    /// Relies on `ark_ff::Fp::serialize_compressed`: writes exactly the
    /// 32-byte little-endian encoding of the canonical representative
    /// (writing to a vector cannot fail).
    #[verifier::external_body]
    pub fn to_canonical_bytes(&self) -> (r: Vec<u8>)
        ensures
            r@ == le_bytes32(fr_val(*self)),
    {
        let mut bytes = Vec::new();
        self.raw.serialize_compressed(&mut bytes).unwrap();
        bytes
    }

    /// Relies on `ark_ff::Fp::deserialize_compressed`: reads exactly 32
    /// little-endian bytes and rejects a shorter input or a value at or
    /// above the field order; bytes past the first 32 are not read.
    #[verifier::external_body]
    pub fn from_canonical_bytes(bytes: &[u8]) -> (r: Result<
        FieldElement,
        ark_serialize::SerializationError,
    >)
        ensures
            r is Ok <==> (bytes@.len() >= 32 && le_val(bytes@.take(32)) < fr_modulus()),
            r is Ok ==> fr_val(r->Ok_0) == le_val(bytes@.take(32)),
    {
        match ark_bn254::Fr::deserialize_compressed(bytes) {
            Ok(fr) => Ok(FieldElement { raw: fr }),
            Err(e) => Err(e),
        }
    }
}

} // verus!
