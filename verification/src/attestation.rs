//! Hardware attestation binding: asks the platform's measurement device to
//! sign caller-supplied user data, and hands the signed document out
//! base64-encoded.  Absence of the device is a normal outcome, not an
//! error.

use base64::Engine;
use std::hash::Hasher;
use vstd::prelude::*;

verus! {

/// The standard base64 encoding (with padding) of a byte string; the
/// result depends on the bytes alone.
pub uninterp spec fn base64_std_of(bytes: Seq<u8>) -> Seq<char>;

/// Relies on base64's `Engine::encode` with the standard alphabet and
/// padding.
#[verifier::external_body]
fn base64_encode(bytes: &[u8]) -> (r: String)
    ensures
        r@ == base64_std_of(bytes@),
{
    base64::engine::general_purpose::STANDARD.encode(bytes)
}

/// Relies on aws_nitro_enclaves_nsm_api's `driver::nsm_init`: opens the
/// measurement device, handing out its descriptor, or a negative value
/// when the device cannot be opened.  The outcome depends on the machine.
#[verifier::external_body]
fn nsm_init_fd() -> i32 {
    aws_nitro_enclaves_nsm_api::driver::nsm_init()
}

/// Relies on aws_nitro_enclaves_nsm_api's `driver::nsm_process_request`
/// with an attestation request binding `user_data`: the device either
/// answers with a signed document or with an error response.  The outcome
/// depends on the device.
#[verifier::external_body]
fn nsm_attestation_document(fd: i32, user_data: &[u8]) -> (r: Option<Vec<u8>>) {
    let request = aws_nitro_enclaves_nsm_api::api::Request::Attestation {
        user_data: Some(user_data.to_vec().into()),
        nonce: None,
        public_key: None,
    };
    match aws_nitro_enclaves_nsm_api::driver::nsm_process_request(fd, request) {
        aws_nitro_enclaves_nsm_api::api::Response::Attestation { document } => Some(document),
        _ => None,
    }
}

/// Relies on aws_nitro_enclaves_nsm_api's `driver::nsm_exit`: closes the
/// device descriptor.
#[verifier::external_body]
fn nsm_close(fd: i32) {
    aws_nitro_enclaves_nsm_api::driver::nsm_exit(fd)
}

/// Request an attestation document binding the given user data.  Whatever
/// the device answers, a returned document is handed out base64-encoded;
/// without a device, or on a device error, there is no document.
pub fn generate_attestation_with_user_data(user_data: &[u8]) -> (r: Option<String>)
    ensures
        r matches Some(s) ==> exists|doc: Seq<u8>| s@ == base64_std_of(doc),
{
    let fd = nsm_init_fd();
    if fd >= 0 {
        match nsm_attestation_document(fd, user_data) {
            Some(document) => {
                nsm_close(fd);
                let encoded = base64_encode(document.as_slice());
                proof {
                    assert(encoded@ == base64_std_of(document@));
                }
                Some(encoded)
            },
            None => {
                nsm_close(fd);
                None
            },
        }
    } else {
        None
    }
}

/// The big-endian byte `i` of a 64-bit value.
pub open spec fn be_byte(x: u64, i: int) -> u8
    recommends
        0 <= i < 8,
{
    ((x >> (((7 - i) * 8) as u64)) & 0xff) as u8
}

/// The eight bytes of a 64-bit value, most significant first.
pub fn u64_to_be_bytes(x: u64) -> (r: Vec<u8>)
    ensures
        r@.len() == 8,
        forall|i: int| 0 <= i < 8 ==> r@[i] == be_byte(x, i),
{
    proof {
        assert((x >> 56) & 0xff < 256 && (x >> 48) & 0xff < 256 && (x >> 40) & 0xff < 256 && (x
            >> 32) & 0xff < 256 && (x >> 24) & 0xff < 256 && (x >> 16) & 0xff < 256 && (x >> 8)
            & 0xff < 256 && x & 0xff < 256) by (bit_vector);
    }
    let mut r: Vec<u8> = Vec::new();
    r.push(((x >> 56) & 0xff) as u8);
    r.push(((x >> 48) & 0xff) as u8);
    r.push(((x >> 40) & 0xff) as u8);
    r.push(((x >> 32) & 0xff) as u8);
    r.push(((x >> 24) & 0xff) as u8);
    r.push(((x >> 16) & 0xff) as u8);
    r.push(((x >> 8) & 0xff) as u8);
    r.push((x & 0xff) as u8);
    proof {
        assert(r@ =~= seq![
            ((x >> 56) & 0xff) as u8,
            ((x >> 48) & 0xff) as u8,
            ((x >> 40) & 0xff) as u8,
            ((x >> 32) & 0xff) as u8,
            ((x >> 24) & 0xff) as u8,
            ((x >> 16) & 0xff) as u8,
            ((x >> 8) & 0xff) as u8,
            (x & 0xff) as u8,
        ]);
        assert forall|i: int| 0 <= i < 8 implies r@[i] == be_byte(x, i) by {
            if i == 0 {
                assert(((7 - 0) * 8) as u64 == 56u64);
            } else if i == 1 {
                assert(((7 - 1) * 8) as u64 == 48u64);
            } else if i == 2 {
                assert(((7 - 2) * 8) as u64 == 40u64);
            } else if i == 3 {
                assert(((7 - 3) * 8) as u64 == 32u64);
            } else if i == 4 {
                assert(((7 - 4) * 8) as u64 == 24u64);
            } else if i == 5 {
                assert(((7 - 5) * 8) as u64 == 16u64);
            } else if i == 6 {
                assert(((7 - 6) * 8) as u64 == 8u64);
            } else {
                assert(((7 - 7) * 8) as u64 == 0u64);
                assert(x >> 0u64 == x) by (bit_vector);
            }
        }
    }
    r
}

/// Bind an attestation document over a hash of the proof bytes, if the
/// measurement device is available (best effort after proof generation).
pub fn generate_attestation_if_available(proof_bytes: &[u8]) -> (r: Option<String>)
    ensures
        r matches Some(s) ==> exists|doc: Seq<u8>| s@ == base64_std_of(doc),
{
    let mut hasher = std::collections::hash_map::DefaultHasher::new();
    hasher.write(proof_bytes);
    let hash_bytes = u64_to_be_bytes(hasher.finish());
    generate_attestation_with_user_data(hash_bytes.as_slice())
}

} // verus!
