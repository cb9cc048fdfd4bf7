use proofport_prover::attestation::{generate_attestation_if_available, u64_to_be_bytes};
use proofport_prover::circuit::CircuitRegistry;
use proofport_prover::command::{exit_outcome, poll_timed_out, spawn_error, timeout_error, wait_error};
use proofport_prover::config::{parse_u32_decimal, resolve_config};
use proofport_prover::pipeline::{
    bb_prove_args, bb_verify_args, nargo_execute_args, pipeline_step, start_pipeline,
    PipelineAction, PipelineEvent,
};
use proofport_prover::routes::{
    circuits_payload, error_status, health_payload, validate_prove, validate_verify,
};
use proofport_prover::session::{
    error_response, handle_attestation, health_response, proof_response, route_request,
    SessionDispatch, VsockRequest,
};
use proofport_prover::strutil::str_contains;
use proofport_prover::types::{ProveRequest, VerifyRequest};

fn request(kind: &str, id: &str) -> VsockRequest {
    VsockRequest {
        request_type: kind.to_string(),
        circuit_id: None,
        prover_toml: None,
        request_id: id.to_string(),
        proof_hash: None,
    }
}

#[test]
fn test_prove_empty_circuit_id_rejected() {
    let req = ProveRequest {
        circuit_id: String::new(),
        inputs: vec!["1".to_string()],
        on_chain: true,
    };
    let err = validate_prove(&req).unwrap();
    assert!(err.error.contains("circuit_id"));
    assert_eq!(err.error, "circuit_id is required");
}

#[test]
fn test_prove_empty_inputs_rejected() {
    let req = ProveRequest {
        circuit_id: "coinbase_attestation".to_string(),
        inputs: vec![],
        on_chain: true,
    };
    let err = validate_prove(&req).unwrap();
    assert_eq!(err.error, "inputs must not be empty");
}

#[test]
fn test_prove_valid_request_passes_validation() {
    let req = ProveRequest {
        circuit_id: "coinbase_attestation".to_string(),
        inputs: vec!["149".to_string(), "2".to_string()],
        on_chain: false,
    };
    assert!(validate_prove(&req).is_none());
}

#[test]
fn test_verify_empty_circuit_id_rejected() {
    let req = VerifyRequest { circuit_id: String::new(), proof: vec![1, 2, 3], on_chain: true };
    let err = validate_verify(&req).unwrap();
    assert_eq!(err.error, "circuit_id is required");
}

#[test]
fn test_verify_empty_proof_rejected() {
    let req = VerifyRequest {
        circuit_id: "coinbase_attestation".to_string(),
        proof: vec![],
        on_chain: true,
    };
    let err = validate_verify(&req).unwrap();
    assert_eq!(err.error, "proof must not be empty");
}

#[test]
fn test_error_status_not_found_is_404() {
    assert_eq!(error_status("Circuit not found: nonexistent_circuit"), 404);
}

#[test]
fn test_error_status_other_is_500() {
    assert_eq!(error_status("Proof generation failed: boom"), 500);
}

#[test]
fn test_str_contains() {
    assert!(str_contains("Circuit not found: x", "Circuit not found"));
    assert!(!str_contains("ok", "Circuit not found"));
    assert!(str_contains("abc", ""));
    assert!(!str_contains("ab", "abc"));
}

#[test]
fn test_health_with_empty_registry() {
    let registry = CircuitRegistry::empty();
    let health = health_payload(&registry);
    assert_eq!(health.status, "ok");
    assert_eq!(health.circuits_loaded, 0);
}

#[test]
fn test_health_returns_circuits_loaded() {
    let registry = CircuitRegistry::mock();
    let health = health_payload(&registry);
    assert_eq!(health.status, "ok");
    assert_eq!(health.circuits_loaded, 2);
}

#[test]
fn test_circuits_returns_both_circuits() {
    let registry = CircuitRegistry::mock();
    let listing = circuits_payload(&registry);
    assert_eq!(listing.circuits.len(), 2);
    let ids: Vec<&str> = listing.circuits.iter().map(|c| c.id.as_str()).collect();
    assert!(ids.contains(&"coinbase_attestation"));
    assert!(ids.contains(&"coinbase_country_attestation"));
    let counts: Vec<usize> = listing.circuits.iter().map(|c| c.input_count).collect();
    assert!(counts.contains(&899));
    assert!(counts.contains(&921));
}

#[test]
fn test_circuits_with_empty_registry() {
    let registry = CircuitRegistry::empty();
    assert!(circuits_payload(&registry).circuits.is_empty());
}

#[test]
fn test_vsock_response_constructors() {
    let resp = error_response("test-456", "Something went wrong".to_string());
    assert_eq!(resp.response_type, "error");
    assert_eq!(resp.request_id, "test-456");
    assert_eq!(resp.error.as_deref(), Some("Something went wrong"));
    assert!(resp.proof.is_none());
    assert!(resp.public_inputs.is_none());

    let resp = health_response("health-789");
    assert_eq!(resp.response_type, "health");
    assert_eq!(resp.request_id, "health-789");
    assert!(resp.proof.is_none());
    assert!(resp.error.is_none());

    let resp = proof_response(
        "test-123",
        "0xdeadbeef".to_string(),
        vec!["0xcafebabe".to_string()],
        None,
    );
    assert_eq!(resp.response_type, "proof");
    assert_eq!(resp.request_id, "test-123");
    assert_eq!(resp.proof.as_deref(), Some("0xdeadbeef"));
    assert_eq!(resp.public_inputs.as_ref().unwrap()[0], "0xcafebabe");
    assert!(resp.attestation_document.is_none());
    assert!(resp.error.is_none());
}

#[test]
fn test_handle_request_health() {
    let req = request("health", "health-test");
    match route_request(&req) {
        SessionDispatch::Respond(resp) => {
            assert_eq!(resp.response_type, "health");
            assert_eq!(resp.request_id, "health-test");
        }
        SessionDispatch::RunProve => panic!("health request must not start the pipeline"),
    }
}

#[test]
fn test_handle_request_prove_dispatches_to_pipeline() {
    let req = request("prove", "p-1");
    assert!(matches!(route_request(&req), SessionDispatch::RunProve));
}

#[test]
fn test_handle_request_unknown_type() {
    let req = request("unknown", "unknown-test");
    match route_request(&req) {
        SessionDispatch::Respond(resp) => {
            assert_eq!(resp.response_type, "error");
            assert!(resp.error.unwrap().contains("Unknown request type"));
        }
        SessionDispatch::RunProve => panic!("unknown request must not start the pipeline"),
    }
}

#[test]
fn test_handle_attestation_missing_proof_hash() {
    let req = request("attestation", "att-test");
    let resp = handle_attestation(&req);
    assert_eq!(resp.response_type, "error");
    assert!(resp.error.unwrap().contains("proofHash"));
}

fn test_config() -> proofport_prover::config::VsockConfig {
    resolve_config(
        None,
        Some("/tmp/nonexistent_circuits_dir".to_string()),
        None,
        None,
    )
}

#[test]
fn test_handle_prove_missing_circuit_id() {
    let mut req = request("prove", "test-1");
    req.prover_toml = Some("content".to_string());
    let resp = start_pipeline(&req, &test_config(), "/tmp", 7).unwrap_err();
    assert_eq!(resp.response_type, "error");
    assert!(resp.error.unwrap().contains("circuitId"));
}

#[test]
fn test_handle_prove_missing_prover_toml() {
    let mut req = request("prove", "test-2");
    req.circuit_id = Some("coinbase_attestation".to_string());
    let resp = start_pipeline(&req, &test_config(), "/tmp", 7).unwrap_err();
    assert_eq!(resp.response_type, "error");
    assert!(resp.error.unwrap().contains("proverToml"));
}

#[test]
fn test_handle_prove_circuit_dir_not_found() {
    let mut req = request("prove", "test-3");
    req.circuit_id = Some("coinbase_attestation".to_string());
    req.prover_toml = Some("signal_hash = [0x01]".to_string());
    let (pipeline, action) = start_pipeline(&req, &test_config(), "/tmp", 7).unwrap();
    let checked = match action {
        PipelineAction::CheckPath { path } => path,
        _ => panic!("the first action must check the circuit directory"),
    };
    assert_eq!(checked, "/tmp/nonexistent_circuits_dir/coinbase_attestation");
    let (done, action) = pipeline_step(pipeline, PipelineEvent::PathChecked { exists: false });
    assert!(!done.workspace_live);
    match action {
        PipelineAction::Respond { response } => {
            assert_eq!(response.response_type, "error");
            assert!(response.error.unwrap().contains("Circuit directory not found"));
        }
        _ => panic!("a missing circuit directory must answer at once"),
    }
}

#[test]
fn test_pipeline_full_run_cleans_up_and_responds() {
    let mut req = request("prove", "run-1");
    req.circuit_id = Some("coinbase_attestation".to_string());
    req.prover_toml = Some("signal_hash = [0x01]\n".to_string());
    let (mut p, mut action) = start_pipeline(&req, &test_config(), "/tmp", 42).unwrap();
    let workspace = p.workspace.clone();
    assert_eq!(workspace, "/tmp/proofport-coinbase_attestation_42");

    // the three artifact checks after the directory check
    for _ in 0..4 {
        assert!(matches!(action, PipelineAction::CheckPath { .. }));
        let step = pipeline_step(p, PipelineEvent::PathChecked { exists: true });
        p = step.0;
        action = step.1;
    }
    match &action {
        PipelineAction::CreateWorkspace { source, workspace: w } => {
            assert_eq!(source.as_str(), "/tmp/nonexistent_circuits_dir/coinbase_attestation");
            assert_eq!(w, &workspace);
        }
        _ => panic!("after the artifact checks the workspace is created"),
    }
    let step = pipeline_step(p, PipelineEvent::WorkspaceCreated { error: None });
    p = step.0;
    assert!(p.workspace_live);
    match &step.1 {
        PipelineAction::WriteFile { path, contents } => {
            assert_eq!(path, &format!("{workspace}/Prover.toml"));
            assert_eq!(contents.as_str(), "signal_hash = [0x01]\n");
        }
        _ => panic!("the parameter document is written next"),
    }
    let step = pipeline_step(p, PipelineEvent::FileWritten { error: None });
    p = step.0;
    match &step.1 {
        PipelineAction::RunCommand { program, args, cwd, timeout_secs } => {
            assert_eq!(program.as_str(), "nargo");
            assert_eq!(args, &vec!["execute".to_string(), "witness".to_string()]);
            assert_eq!(cwd, &workspace);
            assert_eq!(*timeout_secs, 120);
        }
        _ => panic!("witness generation runs next"),
    }
    let step = pipeline_step(
        p,
        PipelineEvent::CommandFinished { result: Ok(String::new()) },
    );
    p = step.0;
    assert!(matches!(step.1, PipelineAction::CreateDir { .. }));
    let step = pipeline_step(p, PipelineEvent::DirCreated { error: None });
    p = step.0;
    assert!(matches!(step.1, PipelineAction::MoveFile { .. }));
    let step = pipeline_step(p, PipelineEvent::FileMoved { error: None });
    p = step.0;
    match &step.1 {
        PipelineAction::RunCommand { program, args, .. } => {
            assert_eq!(program.as_str(), "bb");
            assert_eq!(args[0].as_str(), "prove");
            assert_eq!(args[2].as_str(), "target/coinbase_attestation.json");
        }
        _ => panic!("proof generation runs next"),
    }
    let step = pipeline_step(
        p,
        PipelineEvent::CommandFinished { result: Ok(String::new()) },
    );
    p = step.0;
    match &step.1 {
        PipelineAction::RunCommand { args, .. } => assert_eq!(args[0].as_str(), "verify"),
        _ => panic!("the self-check runs next"),
    }
    let step = pipeline_step(
        p,
        PipelineEvent::CommandFinished { result: Ok(String::new()) },
    );
    p = step.0;
    assert!(matches!(step.1, PipelineAction::ReadFile { .. }));
    let step = pipeline_step(
        p,
        PipelineEvent::FileRead { read: Ok(vec![0xde, 0xad]) },
    );
    p = step.0;
    assert!(matches!(step.1, PipelineAction::ReadFile { .. }));
    let step = pipeline_step(
        p,
        PipelineEvent::FileRead { read: Ok(vec![0xca, 0xfe]) },
    );
    p = step.0;
    match step.1 {
        PipelineAction::RequestAttestation { proof_bytes } => {
            assert_eq!(proof_bytes, vec![0xde, 0xad])
        }
        _ => panic!("attestation is requested over the proof bytes"),
    }
    // the workspace is removed before the response goes out
    let step = pipeline_step(p, PipelineEvent::AttestationDone { document: None });
    p = step.0;
    assert!(!p.workspace_live);
    match step.1 {
        PipelineAction::RemoveWorkspace { workspace: w } => assert_eq!(w, workspace),
        _ => panic!("cleanup precedes the response"),
    }
    let step = pipeline_step(p, PipelineEvent::WorkspaceRemoved);
    match step.1 {
        PipelineAction::Respond { response } => {
            assert_eq!(response.response_type, "proof");
            assert_eq!(response.request_id, "run-1");
            assert_eq!(response.proof.as_deref(), Some("0xdead"));
            assert_eq!(response.public_inputs.unwrap(), vec!["0xcafe".to_string()]);
            assert!(response.attestation_document.is_none());
            assert!(response.error.is_none());
        }
        _ => panic!("the final action is the response"),
    }
}

#[test]
fn test_pipeline_failure_removes_workspace_before_responding() {
    let mut req = request("prove", "run-2");
    req.circuit_id = Some("coinbase_attestation".to_string());
    req.prover_toml = Some("x = 1".to_string());
    let (mut p, _) = start_pipeline(&req, &test_config(), "/tmp", 5).unwrap();
    for _ in 0..4 {
        let step = pipeline_step(p, PipelineEvent::PathChecked { exists: true });
        p = step.0;
    }
    let step = pipeline_step(p, PipelineEvent::WorkspaceCreated { error: None });
    p = step.0;
    let step = pipeline_step(p, PipelineEvent::FileWritten { error: None });
    p = step.0;
    let step = pipeline_step(
        p,
        PipelineEvent::CommandFinished { result: Err("nargo timed out after 120s".to_string()) },
    );
    p = step.0;
    assert!(!p.workspace_live);
    match step.1 {
        PipelineAction::RemoveWorkspace { .. } => {}
        _ => panic!("a failed command must trigger cleanup first"),
    }
    let step = pipeline_step(p, PipelineEvent::WorkspaceRemoved);
    match step.1 {
        PipelineAction::Respond { response } => {
            assert_eq!(response.response_type, "error");
            assert_eq!(
                response.error.as_deref(),
                Some("nargo execute failed: nargo timed out after 120s")
            );
        }
        _ => panic!("the error goes out only after cleanup"),
    }
}

#[test]
fn test_command_arg_builders() {
    assert_eq!(nargo_execute_args(), vec!["execute", "witness"]);
    let args = bb_prove_args("coinbase_attestation");
    assert_eq!(
        args,
        vec![
            "prove",
            "-b",
            "target/coinbase_attestation.json",
            "-w",
            "target/proof/witness.gz",
            "-k",
            "target/vk/vk",
            "-o",
            "target/proof",
            "--oracle_hash",
            "keccak",
        ]
    );
    assert_eq!(
        bb_verify_args(),
        vec![
            "verify",
            "-p",
            "target/proof/proof",
            "-i",
            "target/proof/public_inputs",
            "-k",
            "target/vk/vk",
            "--oracle_hash",
            "keccak",
        ]
    );
}

#[test]
fn test_poll_timed_out() {
    assert!(!poll_timed_out(119_999, 120_000));
    assert!(!poll_timed_out(120_000, 120_000));
    assert!(poll_timed_out(120_001, 120_000));
}

#[test]
fn test_timeout_error_message() {
    assert_eq!(timeout_error("nargo", 120), "nargo timed out after 120s");
}

#[test]
fn test_spawn_and_wait_error_messages() {
    assert_eq!(spawn_error("bb", "no such file"), "Failed to spawn bb: no such file");
    assert_eq!(wait_error("bb", "interrupted"), "Failed to wait for bb: interrupted");
}

#[test]
fn test_exit_outcome_success_hands_out_stdout() {
    let r = exit_outcome("nargo", true, "exit status: 0", "done".to_string(), String::new());
    assert_eq!(r.unwrap(), "done");
}

#[test]
fn test_exit_outcome_prefers_stderr() {
    let r = exit_outcome(
        "bb",
        false,
        "exit status: 1",
        "partial".to_string(),
        "boom".to_string(),
    );
    assert_eq!(r.unwrap_err(), "bb exited with status exit status: 1: boom");
}

#[test]
fn test_exit_outcome_falls_back_to_stdout() {
    let r = exit_outcome("bb", false, "exit status: 1", "partial".to_string(), String::new());
    assert_eq!(r.unwrap_err(), "bb exited with status exit status: 1: partial");
}

#[test]
fn test_parse_u32_decimal() {
    assert_eq!(parse_u32_decimal("5000"), Some(5000));
    assert_eq!(parse_u32_decimal("0"), Some(0));
    assert_eq!(parse_u32_decimal("4294967295"), Some(u32::MAX));
    assert_eq!(parse_u32_decimal("4294967296"), None);
    assert_eq!(parse_u32_decimal(""), None);
    assert_eq!(parse_u32_decimal("12a"), None);
    assert_eq!(parse_u32_decimal("-5"), None);
}

#[test]
fn test_vsock_config_defaults() {
    let config = resolve_config(None, None, None, None);
    assert_eq!(config.port, 5000);
    assert_eq!(config.circuits_dir, "/app/circuits");
    assert_eq!(config.nargo_path, "nargo");
    assert_eq!(config.bb_path, "bb");
}

#[test]
fn test_vsock_config_explicit_values() {
    let config = resolve_config(
        Some("6000".to_string()),
        Some("/srv/circuits".to_string()),
        Some("/usr/bin/nargo".to_string()),
        Some("/usr/bin/bb".to_string()),
    );
    assert_eq!(config.port, 6000);
    assert_eq!(config.circuits_dir, "/srv/circuits");
    assert_eq!(config.nargo_path, "/usr/bin/nargo");
    assert_eq!(config.bb_path, "/usr/bin/bb");
}

#[test]
fn test_vsock_config_bad_port_falls_back() {
    let config = resolve_config(Some("not-a-port".to_string()), None, None, None);
    assert_eq!(config.port, 5000);
}

#[test]
fn test_u64_to_be_bytes() {
    assert_eq!(
        u64_to_be_bytes(0x0102030405060708),
        vec![1, 2, 3, 4, 5, 6, 7, 8]
    );
    assert_eq!(u64_to_be_bytes(0), vec![0; 8]);
    assert_eq!(u64_to_be_bytes(u64::MAX), vec![0xff; 8]);
}

#[test]
fn test_attestation_without_device_is_none() {
    // without the platform's measurement device the binding is skipped,
    // never an error
    assert!(generate_attestation_if_available(&[1, 2, 3]).is_none());
}
