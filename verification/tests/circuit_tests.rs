use zk_prover::circuit::{constraint_system_satisfied, new_constraint_system};
use zk_prover::VoteProofCircuit;

#[test]
fn test_circuit_satisfiability() {
    let choice = 1u64;
    let nonce = [42u8; 32];
    let voter = [1u8; 20];
    let max_choice = 3u64;

    let circuit = VoteProofCircuit::new_with_witness(choice, nonce, voter, max_choice);

    let mut cs = new_constraint_system();
    circuit.generate_constraints(&mut cs).unwrap();

    assert!(constraint_system_satisfied(&cs).unwrap());
}

#[test]
fn test_circuit_fails_with_invalid_choice() {
    let choice = 5u64; // Greater than max_choice
    let nonce = [42u8; 32];
    let voter = [1u8; 20];
    let max_choice = 3u64;

    let circuit = VoteProofCircuit::new_with_witness(choice, nonce, voter, max_choice);

    let mut cs = new_constraint_system();

    // Should either fail to generate constraints or not be satisfied
    match circuit.generate_constraints(&mut cs) {
        Ok(_) => {
            // If constraints generated, they should not be satisfied
            assert!(!constraint_system_satisfied(&cs).unwrap());
        }
        Err(_) => {
            // Expected behavior for invalid input
        }
    }
}

#[test]
fn test_statement_matches_assignment() {
    let valid = VoteProofCircuit::new_with_witness(1, [42u8; 32], [1u8; 20], 3);
    assert_eq!(valid.statement_satisfied(), Some(true));

    let out_of_range = VoteProofCircuit::new_with_witness(5, [42u8; 32], [1u8; 20], 3);
    assert_eq!(out_of_range.statement_satisfied(), Some(false));

    let at_bound = VoteProofCircuit::new_with_witness(3, [42u8; 32], [1u8; 20], 3);
    assert_eq!(at_bound.statement_satisfied(), Some(false));

    let structural = VoteProofCircuit::new_without_witness(3);
    assert_eq!(structural.statement_satisfied(), None);
}

#[test]
fn test_gadget_verdict_matches_statement() {
    // The gadget library's satisfiability verdict and the library's own
    // statement check must agree on every assignment
    for choice in 0u64..6 {
        let circuit = VoteProofCircuit::new_with_witness(choice, [42u8; 32], [1u8; 20], 3);
        let expected = circuit.statement_satisfied().unwrap();
        let mut cs = new_constraint_system();
        match circuit.generate_constraints(&mut cs) {
            Ok(()) => assert_eq!(constraint_system_satisfied(&cs).unwrap(), expected),
            Err(_) => assert!(!expected),
        }
    }
}

#[test]
fn test_structural_circuit_fails_synthesis_in_proving_mode() {
    let structural = zk_prover::VoteProofCircuit::new_without_witness(3);
    let mut cs = new_constraint_system();
    assert!(structural.generate_constraints(&mut cs).is_err());
}
