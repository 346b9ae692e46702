use zk_prover::commitment::compute_commitment;
use zk_prover::field::FieldElement;
use zk_prover::hexenc::{fr_to_hex_string, hex_string_to_fr};

#[test]
fn test_commitment_computation() {
    let choice = 1u64;
    let nonce = [42u8; 32];
    let voter = [1u8; 20];

    let commitment = compute_commitment(choice, &nonce, &voter);

    // Commitment should be deterministic
    let commitment2 = compute_commitment(choice, &nonce, &voter);
    assert!(commitment.equals(&commitment2));

    // Different inputs should give different commitments
    let commitment3 = compute_commitment(2, &nonce, &voter);
    assert!(!commitment.equals(&commitment3));
}

#[test]
fn test_commitment_sensitive_to_nonce_and_voter() {
    let base = compute_commitment(1, &[42u8; 32], &[1u8; 20]);
    let other_nonce = compute_commitment(1, &[43u8; 32], &[1u8; 20]);
    let other_voter = compute_commitment(1, &[42u8; 32], &[2u8; 20]);
    assert!(!base.equals(&other_nonce));
    assert!(!base.equals(&other_voter));
}

#[test]
fn test_field_element_hex_round_trip() {
    let fe = compute_commitment(7, &[9u8; 32], &[3u8; 20]);
    let hex = fr_to_hex_string(&fe);
    assert_eq!(hex.len(), 64);
    let back = hex_string_to_fr(&hex).unwrap();
    assert!(fe.equals(&back));
}

#[test]
fn test_small_element_hex_encoding_is_little_endian() {
    let one = FieldElement::from_u64(1);
    let expected = format!("01{}", "00".repeat(31));
    assert_eq!(fr_to_hex_string(&one), expected);

    let value = FieldElement::from_u64(0x0123);
    let expected2 = format!("2301{}", "00".repeat(30));
    assert_eq!(fr_to_hex_string(&value), expected2);
}

#[test]
fn test_digest_mapping_known_vector() {
    // The digest of the empty string is
    // e3b0c44298fc1c149afbf4c8996fb92427ae41e4649b934ca495991b7852b855;
    // the field element keeps its low 31 bytes little-endian, so its
    // canonical encoding is those bytes followed by one zero byte.
    let fe = zk_prover::commitment::bytes_to_fr(&[]);
    assert_eq!(
        fr_to_hex_string(&fe),
        "e3b0c44298fc1c149afbf4c8996fb92427ae41e4649b934ca495991b7852b800"
    );

    let fe2 = zk_prover::commitment::bytes_to_fr(&[42u8; 32]);
    assert_eq!(
        fr_to_hex_string(&fe2),
        "544e62cee8033709e389e5b2755343d0d0fa8c4850215cfb6331717e80d1ae00"
    );
}

#[test]
fn test_hex_decode_accepts_uppercase() {
    let fe = FieldElement::from_u64(0xabcd);
    let lower = fr_to_hex_string(&fe);
    let upper = lower.to_uppercase();
    let back = hex_string_to_fr(&upper).unwrap();
    assert!(fe.equals(&back));
}

#[test]
fn test_hex_decode_rejects_malformed_input() {
    // Odd length
    assert!(hex_string_to_fr("abc").is_err());
    // Not a hex digit
    assert!(hex_string_to_fr(&"zz".repeat(32)).is_err());
    // Too short to hold a field element
    assert!(hex_string_to_fr("ab").is_err());
    // Out of range: 2^256 - 1 is far above the field order
    assert!(hex_string_to_fr(&"ff".repeat(32)).is_err());
    // Over-long: a valid 32-byte prefix with trailing bytes is not a
    // canonical encoding
    let mut long = fr_to_hex_string(&FieldElement::from_u64(7));
    long.push_str("ab");
    assert!(hex_string_to_fr(&long).is_err());
}
