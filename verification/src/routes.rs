//! The synchronous transport's request validation, error-to-status mapping
//! and response assembly.  Validation happens strictly before any
//! coordinator call; the listener and its JSON codec live outside and hand
//! plain values in and out.

use vstd::prelude::*;
use vstd::string::StringExecFns;

use crate::circuit::CircuitRegistry;
use crate::prover::ProveResult;
use crate::strutil::{seq_contains, str_contains};
use crate::types::{
    CircuitsResponse, ErrorResponse, HealthResponse, ProveRequest, ProveResponse, VerifyRequest,
    VerifyResponse,
};

verus! {

/// Validation of a prove request: a present circuit id first, then
/// nonempty inputs.  `None` means the request may reach the coordinator.
pub fn validate_prove(req: &ProveRequest) -> (r: Option<ErrorResponse>)
    ensures
        req.circuit_id@.len() == 0 ==> (r matches Some(e) && e.error@ == "circuit_id is required"@),
        req.circuit_id@.len() > 0 && req.inputs@.len() == 0 ==> (r matches Some(e) && e.error@
            == "inputs must not be empty"@),
        req.circuit_id@.len() > 0 && req.inputs@.len() > 0 ==> r is None,
{
    if req.circuit_id.as_str().is_empty() {
        Some(ErrorResponse { error: String::from_str("circuit_id is required") })
    } else if req.inputs.is_empty() {
        Some(ErrorResponse { error: String::from_str("inputs must not be empty") })
    } else {
        None
    }
}

/// Validation of a verify request: a present circuit id first, then a
/// nonempty proof.
pub fn validate_verify(req: &VerifyRequest) -> (r: Option<ErrorResponse>)
    ensures
        req.circuit_id@.len() == 0 ==> (r matches Some(e) && e.error@ == "circuit_id is required"@),
        req.circuit_id@.len() > 0 && req.proof@.len() == 0 ==> (r matches Some(e) && e.error@
            == "proof must not be empty"@),
        req.circuit_id@.len() > 0 && req.proof@.len() > 0 ==> r is None,
{
    if req.circuit_id.as_str().is_empty() {
        Some(ErrorResponse { error: String::from_str("circuit_id is required") })
    } else if req.proof.is_empty() {
        Some(ErrorResponse { error: String::from_str("proof must not be empty") })
    } else {
        None
    }
}

/// The status of a failed coordinator call: an unknown circuit is reported
/// as not-found, anything else as an internal error.
pub fn error_status(e: &str) -> (s: u16)
    ensures
        s == (if seq_contains(e@, "Circuit not found"@) {
            404u16
        } else {
            500u16
        }),
{
    if str_contains(e, "Circuit not found") {
        404
    } else {
        500
    }
}

/// The health report: always available, even over an empty registry.
pub fn health_payload(registry: &CircuitRegistry) -> (h: HealthResponse)
    ensures
        h.status@ == "ok"@,
        h.circuits_loaded == registry.spec_len(),
{
    HealthResponse { status: String::from_str("ok"), circuits_loaded: registry.len() }
}

/// The circuit listing: the registry's descriptors, never the coordinator.
pub fn circuits_payload(registry: &CircuitRegistry) -> (c: CircuitsResponse)
    ensures
        c.circuits.deep_view() == registry.spec_infos(),
{
    CircuitsResponse { circuits: registry.list_circuits() }
}

/// The response body of a successful prove call.
pub fn prove_response_of(result: ProveResult) -> (r: ProveResponse)
    ensures
        r.proof@ == result.proof_hex@,
        r.public_inputs@ == result.public_inputs_hex@,
        r.proof_with_inputs@ == result.proof_with_inputs_hex@,
{
    ProveResponse {
        proof: result.proof_hex,
        public_inputs: result.public_inputs_hex,
        proof_with_inputs: result.proof_with_inputs_hex,
    }
}

/// The response body of a completed verify call.
pub fn verify_response_of(is_valid: bool) -> (r: VerifyResponse)
    ensures
        r.is_valid == is_valid,
{
    VerifyResponse { is_valid }
}

} // verus!
