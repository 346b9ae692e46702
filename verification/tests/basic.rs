use zk_prover::ProverError;

#[test]
fn test_basic_imports() {
    // Ensure all modules are accessible
    let _ = ProverError::InvalidCommitment;
}

#[test]
fn test_poseidon_config_default() {
    let config = zk_prover::types::PoseidonConfig::default();
    assert_eq!(config.full_rounds, 8);
    assert_eq!(config.partial_rounds, 56);
    assert_eq!(config.alpha, 5);
}
