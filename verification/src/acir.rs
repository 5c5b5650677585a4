//! Marshaling for the circuit-level native calls: circuit introspection,
//! proof construction and verification requests, and their responses.
//!
//! The proving and verification entry points come in families named by their
//! transcript hash choice; every family shares one shape — circuit and
//! witness (and possibly a verification key) in, proof bytes out — so one
//! request builder and one response reader serve them all. A proof or
//! verification-key response arrives doubly wrapped: the native output buffer
//! is a wire buffer whose payload is itself a wire buffer holding the actual
//! bytes.

use crate::buffer::{decode, wire_format, wire_payload, wire_well_formed, BufferError, encode};
use crate::endian::spec_u32_from_be_bytes;
use crate::endian::u32_from_be_bytes;
use crate::srs::Srs;
use vstd::prelude::*;

verus! {

/// The two sizes the native circuit introspection reports.
#[derive(Clone, Copy, Debug, PartialEq, Eq, Structural)]
pub struct CircuitSizes {
    pub total: u32,
    pub subgroup: u32,
}

/// Reads the two sizes out of the big-endian words the native introspection
/// call wrote into its out-parameters.
pub fn circuit_sizes_from_be(total_be: &[u8; 4], subgroup_be: &[u8; 4]) -> (r: CircuitSizes)
    ensures
        r.total == spec_u32_from_be_bytes(total_be@),
        r.subgroup == spec_u32_from_be_bytes(subgroup_be@),
{
    CircuitSizes { total: u32_from_be_bytes(total_be), subgroup: u32_from_be_bytes(subgroup_be) }
}

/// Marshals circuit and witness for one proving call of any family. The
/// verification key, where a family takes one, crosses as raw bytes with no
/// prefix. Proving needs the structured reference string on hand, so the
/// request demands the capability by type.
pub fn prove_request(circuit: &[u8], witness: &[u8], _srs: &Srs) -> (r: (Vec<u8>, Vec<u8>))
    requires
        circuit@.len() <= u32::MAX,
        witness@.len() <= u32::MAX,
    ensures
        r.0@ == wire_format(circuit@),
        r.1@ == wire_format(witness@),
{
    (encode(circuit), encode(witness))
}

/// Marshals a circuit for one verification-key derivation call of any
/// family. Deriving the key runs the prover's setup, so the request demands
/// the structured-reference-string capability by type.
pub fn verification_key_request(circuit: &[u8], _srs: &Srs) -> (r: Vec<u8>)
    requires
        circuit@.len() <= u32::MAX,
    ensures
        r@ == wire_format(circuit@),
{
    encode(circuit)
}

/// Marshals a proof for one stateless verify call of any family. The
/// verification key crosses as raw bytes with no prefix.
pub fn verify_request(proof: &[u8]) -> (r: Vec<u8>)
    requires
        proof@.len() <= u32::MAX,
    ensures
        r@ == wire_format(proof@),
{
    encode(proof)
}

/// Reads a doubly wrapped response: the payload of the payload of the bytes
/// a proving or key-derivation call handed back. `None` stands for a null
/// output pointer — the call failed, and the failure is reported, never
/// unwrapped into a crash.
pub fn decode_nested(src: Option<&[u8]>) -> (r: Result<Vec<u8>, BufferError>)
    requires
        src matches Some(s) ==> wire_well_formed(s@) && wire_well_formed(wire_payload(s@)),
    ensures
        src is None ==> r == Err::<Vec<u8>, BufferError>(BufferError::Null),
        src matches Some(s) ==> r matches Ok(v) && v@ == wire_payload(wire_payload(s@)),
{
    match src {
        None => Err(BufferError::Null),
        Some(s) => {
            let outer = decode(s);
            let inner = decode(outer.as_slice());
            Ok(inner)
        },
    }
}

} // verus!
