//! The one-shot session protocol: one request per connection, one response,
//! then the connection closes.  This module holds the request and response
//! shapes, the response constructors, the dispatch on the request kind, and
//! the attestation handler.  Reading the byte stream and its JSON codec
//! live outside and hand plain values in and out.

use vstd::prelude::*;
use vstd::string::StrSliceExecFns;
use vstd::string::StringExecFns;

use crate::attestation::{base64_std_of, generate_attestation_with_user_data};
use crate::strutil::concat2;

verus! {

/// A single request of the one-shot transport.
#[derive(Debug)]
pub struct VsockRequest {
    pub request_type: String,
    pub circuit_id: Option<String>,
    pub prover_toml: Option<String>,
    pub request_id: String,
    pub proof_hash: Option<String>,
}

/// The single response of a one-shot session.
#[derive(Debug)]
pub struct VsockResponse {
    pub response_type: String,
    pub request_id: String,
    pub proof: Option<String>,
    pub public_inputs: Option<Vec<String>>,
    pub attestation_document: Option<String>,
    pub error: Option<String>,
}

/// An error response carrying `msg`, with everything else absent.
pub open spec fn is_error_resp(r: VsockResponse, request_id: Seq<char>, msg: Seq<char>) -> bool {
    &&& r.response_type@ == "error"@
    &&& r.request_id@ == request_id
    &&& r.proof is None
    &&& r.public_inputs is None
    &&& r.attestation_document is None
    &&& r.error matches Some(e) && e@ == msg
}

/// A bare health response, with every payload field absent.
pub open spec fn is_health_resp(r: VsockResponse, request_id: Seq<char>) -> bool {
    &&& r.response_type@ == "health"@
    &&& r.request_id@ == request_id
    &&& r.proof is None
    &&& r.public_inputs is None
    &&& r.attestation_document is None
    &&& r.error is None
}

/// Builds the error response for a request.
pub fn error_response(request_id: &str, error: String) -> (r: VsockResponse)
    ensures
        is_error_resp(r, request_id@, error@),
{
    VsockResponse {
        response_type: String::from_str("error"),
        request_id: request_id.to_owned(),
        proof: None,
        public_inputs: None,
        attestation_document: None,
        error: Some(error),
    }
}

/// Builds the health response for a request.
pub fn health_response(request_id: &str) -> (r: VsockResponse)
    ensures
        is_health_resp(r, request_id@),
{
    VsockResponse {
        response_type: String::from_str("health"),
        request_id: request_id.to_owned(),
        proof: None,
        public_inputs: None,
        attestation_document: None,
        error: None,
    }
}

/// Builds the successful proof response for a request.
pub fn proof_response(
    request_id: &str,
    proof: String,
    public_inputs: Vec<String>,
    attestation_document: Option<String>,
) -> (r: VsockResponse)
    ensures
        r.response_type@ == "proof"@,
        r.request_id@ == request_id@,
        r.proof matches Some(p) && p@ == proof@,
        r.public_inputs matches Some(pi) && pi@ == public_inputs@,
        r.attestation_document == attestation_document,
        r.error is None,
{
    VsockResponse {
        response_type: String::from_str("proof"),
        request_id: request_id.to_owned(),
        proof: Some(proof),
        public_inputs: Some(public_inputs),
        attestation_document,
        error: None,
    }
}

/// The request does not carry a usable proof hash.
pub open spec fn missing_proof_hash(request: VsockRequest) -> bool {
    match request.proof_hash {
        None => true,
        Some(h) => h@.len() == 0,
    }
}

/// Answers an attestation request: a nonempty proof-hash identifier is
/// required; the measurement device binds it as user data, and its absence
/// is reported as an error response, never as a crash.
pub fn handle_attestation(request: &VsockRequest) -> (r: VsockResponse)
    ensures
        missing_proof_hash(*request) ==> is_error_resp(
            r,
            request.request_id@,
            "proofHash is required for attestation"@,
        ),
        !missing_proof_hash(*request) ==> {
            ||| (r.response_type@ == "proof"@ && r.request_id@ == request.request_id@ && (
            r.attestation_document matches Some(s) && (exists|doc: Seq<u8>| s@ == base64_std_of(
                doc,
            ))) && r.error is None && r.proof is None && r.public_inputs is None)
            ||| is_error_resp(
                r,
                request.request_id@,
                "Attestation not available (NSM device not found)"@,
            )
        },
{
    match &request.proof_hash {
        Some(hash) => {
            if hash.as_str().is_empty() {
                error_response(
                    request.request_id.as_str(),
                    String::from_str("proofHash is required for attestation"),
                )
            } else {
                match generate_attestation_with_user_data(hash.as_str().as_bytes()) {
                    Some(doc) => VsockResponse {
                        response_type: String::from_str("proof"),
                        request_id: request.request_id.clone(),
                        proof: None,
                        public_inputs: None,
                        attestation_document: Some(doc),
                        error: None,
                    },
                    None => error_response(
                        request.request_id.as_str(),
                        String::from_str("Attestation not available (NSM device not found)"),
                    ),
                }
            }
        },
        None => error_response(
            request.request_id.as_str(),
            String::from_str("proofHash is required for attestation"),
        ),
    }
}

/// What the session loop does with a request: answer it directly, or run
/// the subprocess proving pipeline.
pub enum SessionDispatch {
    Respond(VsockResponse),
    RunProve,
}

/// Routes one request by its kind.  Health is answered immediately;
/// proving is handed to the pipeline; attestation is answered by the
/// device; an unknown kind is an error naming it.
pub fn route_request(request: &VsockRequest) -> (r: SessionDispatch)
    ensures
        request.request_type@ == "health"@ ==> (r matches SessionDispatch::Respond(resp)
            && is_health_resp(resp, request.request_id@)),
        request.request_type@ == "prove"@ ==> r is RunProve,
        request.request_type@ != "health"@ && request.request_type@ != "prove"@
            && request.request_type@ == "attestation"@ ==> (r matches SessionDispatch::Respond(
            resp,
        ) && (missing_proof_hash(*request) ==> is_error_resp(
            resp,
            request.request_id@,
            "proofHash is required for attestation"@,
        )) && (!missing_proof_hash(*request) ==> ((resp.response_type@ == "proof"@
            && resp.request_id@ == request.request_id@ && resp.attestation_document is Some)
            || is_error_resp(
            resp,
            request.request_id@,
            "Attestation not available (NSM device not found)"@,
        )))),
        request.request_type@ != "health"@ && request.request_type@ != "prove"@
            && request.request_type@ != "attestation"@ ==> (r matches SessionDispatch::Respond(
            resp,
        ) && is_error_resp(
            resp,
            request.request_id@,
            "Unknown request type: "@ + request.request_type@,
        )),
{
    proof {
        reveal_strlit("health");
        reveal_strlit("prove");
        reveal_strlit("attestation");
        assert("health"@.len() == 6);
        assert("prove"@.len() == 5);
        assert("attestation"@.len() == 11);
        assert("health"@ != "prove"@);
        assert("health"@ != "attestation"@);
        assert("prove"@ != "attestation"@);
    }
    let health = String::from_str("health");
    let prove = String::from_str("prove");
    let attestation = String::from_str("attestation");
    if request.request_type == health {
        SessionDispatch::Respond(health_response(request.request_id.as_str()))
    } else if request.request_type == prove {
        SessionDispatch::RunProve
    } else if request.request_type == attestation {
        SessionDispatch::Respond(handle_attestation(request))
    } else {
        SessionDispatch::Respond(
            error_response(
                request.request_id.as_str(),
                concat2("Unknown request type: ", request.request_type.as_str()),
            ),
        )
    }
}

} // verus!
