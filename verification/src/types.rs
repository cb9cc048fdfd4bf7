//! Request and response types of the synchronous transport, and the circuit
//! descriptor exposed by the registry.
//!
//! The wire encoding of these types (JSON field names, serializers) is the
//! transport layer's business and stays outside the verified crate; here they
//! are plain data with views over their string contents.

use vstd::prelude::*;

verus! {

/// A request to generate a proof: circuit id, decimal-string inputs, and the
/// hashing-mode flag.
#[derive(Debug)]
pub struct ProveRequest {
    pub circuit_id: String,
    pub inputs: Vec<String>,
    pub on_chain: bool,
}

/// A successful proving answer: hex-encoded proof body, public inputs, and
/// the combined blob.
#[derive(Debug)]
pub struct ProveResponse {
    pub proof: String,
    pub public_inputs: String,
    pub proof_with_inputs: String,
}

/// A request to verify a combined proof blob against a circuit.
#[derive(Debug)]
pub struct VerifyRequest {
    pub circuit_id: String,
    pub proof: Vec<u8>,
    pub on_chain: bool,
}

/// The answer to a verification request.
#[derive(Debug)]
pub struct VerifyResponse {
    pub is_valid: bool,
}

/// The mathematical content of a [`CircuitInfo`]: every string as a
/// character sequence.
pub ghost struct CircuitInfoView {
    pub id: Seq<char>,
    pub display_name: Seq<char>,
    pub description: Seq<char>,
    pub required_inputs: Seq<Seq<char>>,
    pub input_count: nat,
}

/// Static metadata describing one circuit.
#[derive(Debug)]
pub struct CircuitInfo {
    pub id: String,
    pub display_name: String,
    pub description: String,
    pub required_inputs: Vec<String>,
    pub input_count: usize,
}

impl View for CircuitInfo {
    type V = CircuitInfoView;

    open spec fn view(&self) -> CircuitInfoView {
        CircuitInfoView {
            id: self.id@,
            display_name: self.display_name@,
            description: self.description@,
            required_inputs: self.required_inputs.deep_view(),
            input_count: self.input_count as nat,
        }
    }
}

impl DeepView for CircuitInfo {
    type V = CircuitInfoView;

    open spec fn deep_view(&self) -> CircuitInfoView {
        self.view()
    }
}

impl Clone for CircuitInfo {
    fn clone(&self) -> (res: Self)
        ensures
            res@ == self@,
    {
        let required_inputs = clone_string_vec(&self.required_inputs);
        let res = CircuitInfo {
            id: self.id.clone(),
            display_name: self.display_name.clone(),
            description: self.description.clone(),
            required_inputs,
            input_count: self.input_count,
        };
        proof {
            assert(res.required_inputs.deep_view() =~= self.required_inputs.deep_view());
        }
        res
    }
}

/// Clones a vector of strings, element for element.
pub fn clone_string_vec(v: &Vec<String>) -> (res: Vec<String>)
    ensures
        res@ == v@,
{
    let mut res: Vec<String> = Vec::new();
    let len = v.len();
    let mut i: usize = 0;
    while i < len
        invariant
            len == v@.len(),
            i <= len,
            res@ == v@.subrange(0, i as int),
        decreases len - i,
    {
        res.push(v[i].clone());
        proof {
            assert(res@ =~= v@.subrange(0, i + 1));
        }
        i = i + 1;
    }
    proof {
        assert(v@.subrange(0, len as int) =~= v@);
    }
    res
}

/// The list of loaded circuit descriptors.
#[derive(Debug)]
pub struct CircuitsResponse {
    pub circuits: Vec<CircuitInfo>,
}

/// The health report of the service.
#[derive(Debug)]
pub struct HealthResponse {
    pub status: String,
    pub circuits_loaded: usize,
}

/// A structured error answer carrying one message.
#[derive(Debug)]
pub struct ErrorResponse {
    pub error: String,
}

/// The ordered input names of the identity-attestation circuit.
pub open spec fn ca_required_inputs() -> Seq<Seq<char>> {
    seq![
        "signal_hash"@,
        "signer_list_merkle_root"@,
        "user_address"@,
        "user_signature"@,
        "user_pubkey_x"@,
        "user_pubkey_y"@,
        "raw_transaction"@,
        "tx_length"@,
        "coinbase_attester_pubkey_x"@,
        "coinbase_attester_pubkey_y"@,
        "coinbase_signer_merkle_proof"@,
        "coinbase_signer_leaf_index"@,
        "merkle_proof_depth"@,
    ]
}

/// The ordered input names of the country-attestation circuit: the identity
/// circuit's inputs followed by the country fields.
pub open spec fn cca_required_inputs() -> Seq<Seq<char>> {
    ca_required_inputs() + seq!["country_list"@, "is_included"@]
}

/// The full canonical descriptor of the identity-attestation circuit.
pub open spec fn ca_info_view() -> CircuitInfoView {
    CircuitInfoView {
        id: "coinbase_attestation"@,
        display_name: "Coinbase KYC"@,
        description: "Prove Coinbase KYC attestation without revealing identity"@,
        required_inputs: ca_required_inputs(),
        input_count: 899,
    }
}

/// The full canonical descriptor of the country-attestation circuit.
pub open spec fn cca_info_view() -> CircuitInfoView {
    CircuitInfoView {
        id: "coinbase_country_attestation"@,
        display_name: "Coinbase Country"@,
        description: "Prove country attestation from Coinbase without revealing country"@,
        required_inputs: cca_required_inputs(),
        input_count: 921,
    }
}

/// The canonical descriptor of the identity-attestation circuit.
pub open spec fn is_ca_info(c: CircuitInfoView) -> bool {
    c == ca_info_view()
}

/// The canonical descriptor of the country-attestation circuit.
pub open spec fn is_cca_info(c: CircuitInfoView) -> bool {
    c == cca_info_view()
}

} // verus!
