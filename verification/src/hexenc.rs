//! Hex-string transport of field elements.
//!
//! Field elements inside the public-input list travel as lowercase hex
//! strings over their canonical 32-byte little-endian encoding. Every decode
//! path rejects malformed, truncated, over-long or out-of-range input with a
//! serialization error.

use vstd::prelude::*;
use crate::error::ProverError;
use crate::field::{fr_modulus, fr_val, le_bytes32, le_val, FieldElement};
use crate::types::ProverResult;

verus! {

/// Whether a character is a hex digit (either case).
pub open spec fn is_hex_digit(c: char) -> bool {
    (48 <= c as u32 && c as u32 <= 57) || (97 <= c as u32 && c as u32 <= 102) || (65 <= c as u32
        && c as u32 <= 70)
}

/// The value of a hex digit.
pub open spec fn hex_digit_val(c: char) -> nat
    recommends
        is_hex_digit(c),
{
    if 48 <= c as u32 && c as u32 <= 57 {
        (c as u32 - 48) as nat
    } else if 97 <= c as u32 && c as u32 <= 102 {
        (c as u32 - 87) as nat
    } else {
        (c as u32 - 55) as nat
    }
}

/// The lowercase hex character for a nibble.
pub open spec fn nibble_char(n: nat) -> char
    recommends
        n < 16,
{
    if n < 10 {
        (48 + n) as char
    } else {
        (87 + n) as char
    }
}

/// The lowercase hex string of a byte string: two digits per byte, high
/// nibble first.
pub open spec fn hex_of(b: Seq<u8>) -> Seq<char> {
    Seq::new(
        b.len() * 2,
        |i: int|
            if i % 2 == 0 {
                nibble_char(b[i / 2] as nat / 16)
            } else {
                nibble_char(b[i / 2] as nat % 16)
            },
    )
}

/// Whether a string is well-formed hex: even length, hex digits throughout.
pub open spec fn valid_hex(s: Seq<char>) -> bool {
    s.len() % 2 == 0 && (forall|i: int| 0 <= i < s.len() ==> is_hex_digit(#[trigger] s[i]))
}

/// The bytes a well-formed hex string denotes.
pub open spec fn hex_bytes(s: Seq<char>) -> Seq<u8>
    recommends
        valid_hex(s),
{
    Seq::new(s.len() / 2, |i: int| (16 * hex_digit_val(s[2 * i]) + hex_digit_val(s[2 * i + 1])) as u8)
}

/// Whether a hex string decodes to a field element: well-formed hex
/// denoting exactly the 32 bytes of a canonical encoding, whose
/// little-endian value lies below the field order.
pub open spec fn hex_fr_ok(s: Seq<char>) -> bool {
    valid_hex(s) && hex_bytes(s).len() == 32 && le_val(hex_bytes(s)) < fr_modulus()
}

/// The field value a hex string decodes to.
pub open spec fn hex_fr_val(s: Seq<char>) -> nat
    recommends
        hex_fr_ok(s),
{
    le_val(hex_bytes(s))
}

/// A nibble's hex character is a hex digit and decodes back to the nibble.
proof fn lemma_nibble_inverse(n: nat)
    requires
        n < 16,
    ensures
        is_hex_digit(nibble_char(n)),
        hex_digit_val(nibble_char(n)) == n,
{
}

/// Hex encoding round-trips: the hex string of any byte string is
/// well-formed and decodes to the same bytes.
pub proof fn lemma_hex_round_trip(b: Seq<u8>)
    ensures
        valid_hex(hex_of(b)),
        hex_bytes(hex_of(b)) =~= b,
{
    let s = hex_of(b);
    assert forall|i: int| 0 <= i < s.len() implies is_hex_digit(#[trigger] s[i]) by {
        if i % 2 == 0 {
            lemma_nibble_inverse(b[i / 2] as nat / 16);
        } else {
            lemma_nibble_inverse(b[i / 2] as nat % 16);
        }
    }
    assert forall|i: int| 0 <= i < b.len() implies hex_bytes(s)[i] == b[i] by {
        assert(s[2 * i] == nibble_char(b[i] as nat / 16));
        assert(s[2 * i + 1] == nibble_char(b[i] as nat % 16));
        lemma_nibble_inverse(b[i] as nat / 16);
        lemma_nibble_inverse(b[i] as nat % 16);
        assert(16 * (b[i] as nat / 16) + b[i] as nat % 16 == b[i] as nat);
    }
}

/// A field value's transport encoding round-trips: the hex string of its
/// canonical 32-byte encoding is accepted by the decoder and denotes the
/// value itself.
pub proof fn lemma_field_hex_round_trip(v: nat)
    requires
        v < fr_modulus(),
    ensures
        hex_fr_ok(hex_of(le_bytes32(v))),
        hex_fr_val(hex_of(le_bytes32(v))) == v,
{
    let b = le_bytes32(v);
    lemma_hex_round_trip(b);
    assert(hex_bytes(hex_of(b)).take(32) =~= b);
    crate::field::lemma_le_val_le_bytes(v, 32);
    crate::field::lemma_pow256_values();
    vstd::arithmetic::div_mod::lemma_small_mod(v, crate::field::pow256(32));
}

/// Relies on `hex::encode`: the lowercase hex string of the input bytes.
#[verifier::external_body]
fn hex_encode(bytes: &[u8]) -> (r: String)
    ensures
        r@ == hex_of(bytes@),
{
    hex::encode(bytes)
}

/// Relies on `hex::FromHexError`: the error raised on ill-formed hex.
#[verifier::external_type_specification]
#[verifier::external_body]
pub struct ExFromHexError(hex::FromHexError);

/// Relies on `hex::decode`: accepts exactly the even-length strings of hex
/// digits (either case) and returns the bytes they denote.
#[verifier::external_body]
fn hex_decode(s: &str) -> (r: Result<Vec<u8>, hex::FromHexError>)
    ensures
        r is Ok <==> valid_hex(s@),
        r is Ok ==> r->Ok_0@ == hex_bytes(s@),
{
    hex::decode(s)
}

/// Encode a field element as the lowercase hex string of its canonical
/// 32-byte encoding.
pub fn fr_to_hex_string(fr: &FieldElement) -> (r: String)
    ensures
        r@ == hex_of(le_bytes32(fr_val(*fr))),
{
    let bytes = fr.to_canonical_bytes();
    hex_encode(bytes.as_slice())
}

/// Decode a hex string back into a field element.
///
/// Succeeds exactly on well-formed hex denoting a canonical 32-byte
/// encoding whose little-endian value lies below the field order; malformed,
/// truncated, over-long and out-of-range input is a serialization error,
/// never silently reduced or cut.
pub fn hex_string_to_fr(hex: &str) -> (r: ProverResult<FieldElement>)
    ensures
        r is Ok <==> hex_fr_ok(hex@),
        r is Ok ==> fr_val(r->Ok_0) == hex_fr_val(hex@),
        r is Err ==> r->Err_0 == ProverError::SerializationError,
{
    match hex_decode(hex) {
        Ok(bytes) => {
            if bytes.len() != 32 {
                return Err(ProverError::SerializationError);
            }
            proof {
                assert(bytes@.take(32) =~= bytes@);
            }
            match FieldElement::from_canonical_bytes(bytes.as_slice()) {
                Ok(fr) => Ok(fr),
                Err(_) => Err(ProverError::SerializationError),
            }
        },
        Err(_) => Err(ProverError::SerializationError),
    }
}

} // verus!
