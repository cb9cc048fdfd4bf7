//! The pure computation steps of the proof coordinator: the hashing-mode
//! gate, circuit resolution, and the splitting and hex encoding of the
//! backend's combined proof output.
//!
//! The cryptographic backend itself is an outside collaborator with hidden
//! global state; invoking it, and serializing those invocations behind one
//! exclusive capability, is the calling layer's business.  Its inputs and
//! outputs pass through the functions here, which are verified for every
//! value the backend may produce.

use vstd::prelude::*;
use vstd::slice::slice_subrange;
use vstd::string::StringExecFns;

use crate::circuit::{CircuitData, CircuitRegistry};
use crate::hexfmt::{hex_encode, hex_of, lemma_hex_of_concat, lemma_hex_of_len};
use crate::strutil::{concat2, concat3, dec_of, usize_to_dec};

verus! {

/// The fixed size in bytes of the public-input segment at the front of the
/// backend's combined proof output.
pub const PUBLIC_INPUTS_SIZE: usize = 2048;

/// Result of a successful proof generation, all parts hex-encoded.
#[derive(Debug)]
pub struct ProveResult {
    /// Hex-encoded proof bytes (without public inputs).
    pub proof_hex: String,
    /// Hex-encoded public inputs bytes.
    pub public_inputs_hex: String,
    /// Hex-encoded full output (public inputs ++ proof).
    pub proof_with_inputs_hex: String,
}

/// The rejection message of the unimplemented off-chain proving mode.
pub fn off_chain_prove_error() -> (e: String)
    ensures
        e@ == "Off-chain proving (Poseidon) is not yet supported. Use on_chain=true for Keccak proofs."@,
{
    String::from_str(
        "Off-chain proving (Poseidon) is not yet supported. Use on_chain=true for Keccak proofs.",
    )
}

/// The rejection message of the unimplemented off-chain verification mode.
pub fn off_chain_verify_error() -> (e: String)
    ensures
        e@ == "Off-chain verification (Poseidon) is not yet supported. Use on_chain=true for Keccak proofs."@,
{
    String::from_str(
        "Off-chain verification (Poseidon) is not yet supported. Use on_chain=true for Keccak proofs.",
    )
}

/// The checks a prove call makes before the backend may be touched: the
/// hashing-mode gate first, then circuit resolution.  On success it hands
/// out the circuit's artifacts for the backend call.
pub fn prepare_prove(registry: &CircuitRegistry, circuit_id: &str, on_chain: bool) -> (r: Result<
    CircuitData,
    String,
>)
    requires
        registry.wf(),
    ensures
        !on_chain ==> (r matches Err(e) && e@
            == "Off-chain proving (Poseidon) is not yet supported. Use on_chain=true for Keccak proofs."@),
        on_chain && !registry.spec_contains(circuit_id@) ==> (r matches Err(e) && e@
            == "Circuit not found: "@ + circuit_id@),
        on_chain && registry.spec_contains(circuit_id@) ==> (r matches Ok(d) && d@
            == registry.spec_data(circuit_id@)),
{
    if !on_chain {
        return Err(off_chain_prove_error());
    }
    match registry.get(circuit_id) {
        Ok(d) => Ok(d.clone()),
        Err(e) => Err(e),
    }
}

/// The checks a verify call makes before the backend may be touched.  On
/// success it hands out the circuit's verification key.
pub fn prepare_verify(registry: &CircuitRegistry, circuit_id: &str, on_chain: bool) -> (r: Result<
    Vec<u8>,
    String,
>)
    requires
        registry.wf(),
    ensures
        !on_chain ==> (r matches Err(e) && e@
            == "Off-chain verification (Poseidon) is not yet supported. Use on_chain=true for Keccak proofs."@),
        on_chain && !registry.spec_contains(circuit_id@) ==> (r matches Err(e) && e@
            == "Circuit not found: "@ + circuit_id@),
        on_chain && registry.spec_contains(circuit_id@) ==> (r matches Ok(vk) && vk@
            == registry.spec_data(circuit_id@).vk),
{
    if !on_chain {
        return Err(off_chain_verify_error());
    }
    match registry.get(circuit_id) {
        Ok(d) => Ok(crate::circuit::clone_byte_vec(&d.vk)),
        Err(e) => Err(e),
    }
}

/// Splits the backend's combined output into the 2048-byte public-input
/// segment and the proof body, and hex-encodes each part and the whole.
/// Fails when the output is too short to hold both.
pub fn split_proof_output(proof_bytes: &[u8]) -> (r: Result<ProveResult, String>)
    ensures
        proof_bytes@.len() > 2048 ==> (r matches Ok(res) && res.public_inputs_hex@ == hex_of(
            proof_bytes@.take(2048),
        ) && res.proof_hex@ == hex_of(proof_bytes@.skip(2048)) && res.proof_with_inputs_hex@
            == hex_of(proof_bytes@)),
        proof_bytes@.len() <= 2048 ==> (r matches Err(e) && e@ == "Proof output too small: "@
            + dec_of(proof_bytes@.len()) + " bytes (expected > 2048)"@),
{
    let n = proof_bytes.len();
    if n <= PUBLIC_INPUTS_SIZE {
        let len_str = usize_to_dec(n);
        return Err(
            concat3("Proof output too small: ", len_str.as_str(), " bytes (expected > 2048)"),
        );
    }
    let public_inputs_bytes = slice_subrange(proof_bytes, 0, PUBLIC_INPUTS_SIZE);
    let proof_only_bytes = slice_subrange(proof_bytes, PUBLIC_INPUTS_SIZE, n);
    proof {
        assert(proof_bytes@.subrange(0, 2048) =~= proof_bytes@.take(2048));
        assert(proof_bytes@.subrange(2048, proof_bytes@.len() as int) =~= proof_bytes@.skip(2048));
    }
    Ok(
        ProveResult {
            proof_hex: hex_encode(proof_only_bytes),
            public_inputs_hex: hex_encode(public_inputs_bytes),
            proof_with_inputs_hex: hex_encode(proof_bytes),
        },
    )
}

/// What the prove path returns for each possible answer of the backend's
/// proof generation: its error wrapped, or its output split and encoded.
pub fn prove_backend_outcome(backend: Result<Vec<u8>, String>) -> (r: Result<ProveResult, String>)
    ensures
        backend matches Err(e) ==> (r matches Err(e2) && e2@ == "Proof generation failed: "@
            + e@),
        backend matches Ok(bytes) ==> (bytes@.len() > 2048 ==> (r matches Ok(res)
            && res.public_inputs_hex@ == hex_of(bytes@.take(2048)) && res.proof_hex@ == hex_of(
            bytes@.skip(2048),
        ) && res.proof_with_inputs_hex@ == hex_of(bytes@))),
        backend matches Ok(bytes) ==> (bytes@.len() <= 2048 ==> (r matches Err(e2) && e2@
            == "Proof output too small: "@ + dec_of(bytes@.len()) + " bytes (expected > 2048)"@)),
{
    match backend {
        Ok(bytes) => split_proof_output(bytes.as_slice()),
        Err(e) => Err(concat2("Proof generation failed: ", e.as_str())),
    }
}

/// The error message of a failed witness conversion.
pub fn witness_error(e: &str) -> (r: String)
    ensures
        r@ == "Witness generation failed: "@ + e@,
{
    concat2("Witness generation failed: ", e)
}

/// What the verify path returns for each possible answer of the backend's
/// verification: a negative answer passes through as `Ok(false)`, distinct
/// from a backend failure.
pub fn verify_outcome(backend: Result<bool, String>) -> (r: Result<bool, String>)
    ensures
        backend matches Ok(b) ==> (r matches Ok(b2) && b2 == b),
        backend matches Err(e) ==> (r matches Err(e2) && e2@ == "Verification failed: "@ + e@),
{
    match backend {
        Ok(b) => Ok(b),
        Err(e) => Err(concat2("Verification failed: ", e.as_str())),
    }
}

/// For any successful proving result over a combined blob — the
/// public-input segment its first 2048 bytes, the proof body the rest, as
/// [`split_proof_output`] ensures — the hex of the segment followed by the
/// hex of the body is exactly the hex of the whole, which is twice as long
/// as the blob.
pub proof fn lemma_prove_result_hex_concat(res: ProveResult, bytes: Seq<u8>)
    requires
        bytes.len() > 2048,
        res.public_inputs_hex@ == hex_of(bytes.take(2048)),
        res.proof_hex@ == hex_of(bytes.skip(2048)),
        res.proof_with_inputs_hex@ == hex_of(bytes),
    ensures
        res.public_inputs_hex@ + res.proof_hex@ == res.proof_with_inputs_hex@,
        res.proof_with_inputs_hex@.len() == 2 * bytes.len(),
{
    lemma_split_hex_combined(bytes);
}

/// For any combined proof blob long enough to split: the blob is its
/// public-input segment followed by its proof body, the hex encodings
/// concatenate accordingly, and the whole encoding is twice the byte length.
pub proof fn lemma_split_hex_combined(bytes: Seq<u8>)
    requires
        bytes.len() > 2048,
    ensures
        bytes.take(2048) + bytes.skip(2048) == bytes,
        hex_of(bytes.take(2048)) + hex_of(bytes.skip(2048)) == hex_of(bytes),
        hex_of(bytes).len() == 2 * bytes.len(),
{
    assert(bytes.take(2048) + bytes.skip(2048) =~= bytes);
    lemma_hex_of_concat(bytes.take(2048), bytes.skip(2048));
    lemma_hex_of_len(bytes);
}

} // verus!
