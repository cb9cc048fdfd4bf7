use proofport_prover::circuit::{circuit_metadata, extract_bytecode, CircuitData, CircuitRegistry, LoadedCircuit};

#[test]
fn test_circuit_metadata_has_two_circuits() {
    let meta = circuit_metadata();
    assert_eq!(meta.len(), 2);
    assert_eq!(meta[0].id, "coinbase_attestation");
    assert_eq!(meta[1].id, "coinbase_country_attestation");
}

#[test]
fn test_circuit_metadata_display_names() {
    let meta = circuit_metadata();
    assert_eq!(meta[0].display_name, "Coinbase KYC");
    assert_eq!(meta[1].display_name, "Coinbase Country");
}

#[test]
fn test_circuit_metadata_input_counts() {
    let meta = circuit_metadata();
    assert_eq!(meta[0].input_count, 899);
    assert_eq!(meta[1].input_count, 921);
}

#[test]
fn test_circuit_metadata_required_inputs() {
    let meta = circuit_metadata();
    assert_eq!(meta[0].required_inputs.len(), 13);
    assert_eq!(meta[0].required_inputs[0], "signal_hash");
    assert_eq!(meta[0].required_inputs[12], "merkle_proof_depth");
    assert_eq!(meta[1].required_inputs.len(), 15);
    assert_eq!(meta[1].required_inputs[13], "country_list");
    assert_eq!(meta[1].required_inputs[14], "is_included");
}

#[test]
fn test_empty_registry() {
    let registry = CircuitRegistry::empty();
    assert_eq!(registry.len(), 0);
    assert!(registry.is_empty());
    assert!(registry.list_circuits().is_empty());
}

#[test]
fn test_empty_registry_get_returns_error() {
    let registry = CircuitRegistry::empty();
    let result = registry.get("coinbase_attestation");
    assert!(result.is_err());
    assert!(result.unwrap_err().contains("Circuit not found"));
}

#[test]
fn test_mock_registry_has_both_circuits() {
    let registry = CircuitRegistry::mock();
    assert_eq!(registry.len(), 2);
    assert!(!registry.is_empty());
}

#[test]
fn test_mock_registry_get_coinbase_attestation() {
    let registry = CircuitRegistry::mock();
    let data = registry.get("coinbase_attestation").unwrap();
    assert_eq!(data.bytecode, "mock_bytecode_ca");
    assert_eq!(data.vk, vec![1, 2, 3, 4]);
}

#[test]
fn test_mock_registry_get_coinbase_country_attestation() {
    let registry = CircuitRegistry::mock();
    let data = registry.get("coinbase_country_attestation").unwrap();
    assert_eq!(data.bytecode, "mock_bytecode_cca");
    assert_eq!(data.vk, vec![5, 6, 7, 8]);
}

#[test]
fn test_mock_registry_get_unknown_circuit() {
    let registry = CircuitRegistry::mock();
    let result = registry.get("unknown_circuit");
    assert!(result.is_err());
    assert!(result.unwrap_err().contains("unknown_circuit"));
}

#[test]
fn test_mock_registry_list_circuits() {
    let registry = CircuitRegistry::mock();
    let circuits = registry.list_circuits();
    assert_eq!(circuits.len(), 2);
    let ids: Vec<&str> = circuits.iter().map(|c| c.id.as_str()).collect();
    assert!(ids.contains(&"coinbase_attestation"));
    assert!(ids.contains(&"coinbase_country_attestation"));
}

#[test]
fn test_load_bytecode_from_json_valid() {
    let bytecode =
        extract_bytecode(r#"{"bytecode": "H4sIAAAAAAAA/test_bytecode", "abi": {}}"#).unwrap();
    assert_eq!(bytecode, "H4sIAAAAAAAA/test_bytecode");
}

#[test]
fn test_load_bytecode_from_json_missing_field() {
    let result = extract_bytecode(r#"{"abi": {}}"#);
    assert!(result.is_err());
    assert!(result.unwrap_err().contains("No 'bytecode' field"));
}

#[test]
fn test_load_bytecode_from_json_invalid_json() {
    let result = extract_bytecode("not valid json");
    assert!(result.is_err());
    assert!(result.unwrap_err().contains("Failed to parse"));
}

#[test]
fn test_load_bytecode_non_string_field_counts_as_missing() {
    let result = extract_bytecode(r#"{"bytecode": 17}"#);
    assert!(result.is_err());
    assert!(result.unwrap_err().contains("No 'bytecode' field"));
}

fn loaded(id: &str, bytecode: &str, vk: Vec<u8>) -> LoadedCircuit {
    LoadedCircuit {
        id: id.to_string(),
        data: CircuitData { bytecode: bytecode.to_string(), vk },
    }
}

#[test]
fn test_from_loaded_attaches_canonical_metadata_only_for_loaded() {
    let registry =
        CircuitRegistry::from_loaded(&vec![loaded("coinbase_attestation", "bc", vec![9])]);
    assert_eq!(registry.len(), 1);
    let infos = registry.list_circuits();
    assert_eq!(infos.len(), 1);
    assert_eq!(infos[0].id, "coinbase_attestation");
    assert_eq!(infos[0].input_count, 899);
}

#[test]
fn test_from_loaded_unknown_id_has_no_descriptor() {
    let registry = CircuitRegistry::from_loaded(&vec![loaded("mystery", "bc", vec![])]);
    assert_eq!(registry.len(), 1);
    assert!(registry.get("mystery").is_ok());
    assert!(registry.list_circuits().is_empty());
}

#[test]
fn test_from_loaded_repeated_id_keeps_last() {
    let registry = CircuitRegistry::from_loaded(&vec![
        loaded("coinbase_attestation", "first", vec![1]),
        loaded("coinbase_attestation", "second", vec![2]),
    ]);
    assert_eq!(registry.len(), 1);
    let data = registry.get("coinbase_attestation").unwrap();
    assert_eq!(data.bytecode, "second");
    assert_eq!(data.vk, vec![2]);
}
