use proofport_prover::circuit::CircuitRegistry;
use proofport_prover::hexfmt::{hex_encode, hex_encode_prefixed};
use proofport_prover::prover::{
    prepare_prove, prepare_verify, prove_backend_outcome, split_proof_output, verify_outcome,
    witness_error, PUBLIC_INPUTS_SIZE,
};

#[test]
fn test_prove_unknown_circuit() {
    let registry = CircuitRegistry::mock();
    let result = prepare_prove(&registry, "nonexistent_circuit", true);
    assert!(result.is_err());
    assert!(result.unwrap_err().contains("Circuit not found"));
}

#[test]
fn test_prove_off_chain_not_supported() {
    let registry = CircuitRegistry::mock();
    let result = prepare_prove(&registry, "coinbase_attestation", false);
    assert!(result.is_err());
    assert!(result.unwrap_err().contains("Off-chain proving"));
}

#[test]
fn test_verify_unknown_circuit() {
    let registry = CircuitRegistry::mock();
    let result = prepare_verify(&registry, "nonexistent_circuit", true);
    assert!(result.is_err());
    assert!(result.unwrap_err().contains("Circuit not found"));
}

#[test]
fn test_verify_off_chain_not_supported() {
    let registry = CircuitRegistry::mock();
    let result = prepare_verify(&registry, "coinbase_attestation", false);
    assert!(result.is_err());
    assert!(result.unwrap_err().contains("Off-chain verification"));
}

#[test]
fn test_prepare_prove_hands_out_artifacts() {
    let registry = CircuitRegistry::mock();
    let data = prepare_prove(&registry, "coinbase_attestation", true).unwrap();
    assert_eq!(data.bytecode, "mock_bytecode_ca");
    assert_eq!(data.vk, vec![1, 2, 3, 4]);
}

#[test]
fn test_prepare_verify_hands_out_vk() {
    let registry = CircuitRegistry::mock();
    let vk = prepare_verify(&registry, "coinbase_country_attestation", true).unwrap();
    assert_eq!(vk, vec![5, 6, 7, 8]);
}

#[test]
fn test_hex_encode_exact() {
    assert_eq!(hex_encode(&[0xde, 0xad, 0xbe, 0xef]), "deadbeef");
    assert_eq!(hex_encode(&[]), "");
    assert_eq!(hex_encode(&[0x00, 0x0f, 0xf0]), "000ff0");
}

#[test]
fn test_hex_encode_prefixed_exact() {
    assert_eq!(hex_encode_prefixed(&[0xca, 0xfe]), "0xcafe");
    assert_eq!(hex_encode_prefixed(&[]), "0x");
}

#[test]
fn test_split_proof_output_too_small() {
    let result = split_proof_output(&vec![0u8; 100]);
    assert!(result.is_err());
    assert_eq!(
        result.unwrap_err(),
        "Proof output too small: 100 bytes (expected > 2048)"
    );
}

#[test]
fn test_split_proof_output_exact_boundary_is_too_small() {
    let result = split_proof_output(&vec![0u8; PUBLIC_INPUTS_SIZE]);
    assert!(result.is_err());
    assert_eq!(
        result.unwrap_err(),
        "Proof output too small: 2048 bytes (expected > 2048)"
    );
}

#[test]
fn test_split_proof_output_splits_at_2048() {
    let mut bytes = vec![0xaau8; PUBLIC_INPUTS_SIZE];
    bytes.push(0x01);
    bytes.push(0x02);
    let result = split_proof_output(&bytes).unwrap();
    assert_eq!(result.proof_hex, "0102");
    assert_eq!(result.public_inputs_hex.len(), 2 * PUBLIC_INPUTS_SIZE);
    assert!(result.public_inputs_hex.chars().all(|c| c == 'a'));
    let mut combined = result.public_inputs_hex.clone();
    combined.push_str(&result.proof_hex);
    assert_eq!(result.proof_with_inputs_hex, combined);
}

#[test]
fn test_prove_backend_outcome_wraps_backend_error() {
    let result = prove_backend_outcome(Err("barretenberg exploded".to_string()));
    assert!(result.is_err());
    assert_eq!(
        result.unwrap_err(),
        "Proof generation failed: barretenberg exploded"
    );
}

#[test]
fn test_prove_backend_outcome_splits_output() {
    let mut bytes = vec![0x11u8; PUBLIC_INPUTS_SIZE];
    bytes.push(0xff);
    let result = prove_backend_outcome(Ok(bytes)).unwrap();
    assert_eq!(result.proof_hex, "ff");
    assert_eq!(result.public_inputs_hex, "11".repeat(PUBLIC_INPUTS_SIZE));
}

#[test]
fn test_verify_outcome_passes_both_answers_through() {
    assert_eq!(verify_outcome(Ok(true)), Ok(true));
    assert_eq!(verify_outcome(Ok(false)), Ok(false));
}

#[test]
fn test_verify_outcome_wraps_backend_error() {
    let result = verify_outcome(Err("bad key".to_string()));
    assert_eq!(result.unwrap_err(), "Verification failed: bad key");
}

#[test]
fn test_witness_error_message() {
    assert_eq!(witness_error("parse"), "Witness generation failed: parse");
}
