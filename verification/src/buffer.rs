//! The length-prefixed buffer codec.
//!
//! Every variable-length value crosses the native boundary in one wire shape:
//! a 4-byte big-endian length followed by exactly that many payload bytes.
//! Encoding prepends the prefix; decoding reads the prefix and copies the
//! declared number of payload bytes into host-owned memory. A native output
//! pointer that was null is the one failure this layer reports; it is modeled
//! here as the absence of source bytes, so the decoder inspects nothing else
//! in that case.

use crate::endian::{
    lemma_u32_be_bytes_round_trip, lemma_u32_be_round_trip, spec_u32_from_be_bytes,
    spec_u32_to_be_bytes, u32_from_be_bytes, u32_to_be_bytes,
};
use vstd::prelude::*;
use vstd::slice::slice_to_vec;

verus! {

/// The wire shape of a payload: 4-byte big-endian length, then the payload.
pub open spec fn wire_format(payload: Seq<u8>) -> Seq<u8>
    recommends
        payload.len() <= u32::MAX,
{
    spec_u32_to_be_bytes(payload.len() as u32) + payload
}

/// The length that the first four bytes of a wire buffer declare.
pub open spec fn wire_declared_len(w: Seq<u8>) -> int
    recommends
        w.len() >= 4,
{
    spec_u32_from_be_bytes(w.subrange(0, 4)) as int
}

/// A wire buffer is well formed when the bytes on hand cover the length
/// prefix and the whole payload it declares. Bytes beyond the declared
/// payload are never read. Whether a native allocation really holds the
/// declared number of bytes cannot be checked on this side of the boundary;
/// the caller that copied the bytes out of native memory vouches for it.
pub open spec fn wire_well_formed(w: Seq<u8>) -> bool {
    w.len() >= 4 && w.len() >= 4 + wire_declared_len(w)
}

/// The payload of a well-formed wire buffer.
pub open spec fn wire_payload(w: Seq<u8>) -> Seq<u8>
    recommends
        wire_well_formed(w),
{
    w.subrange(4, 4 + wire_declared_len(w))
}

/// The error a native call signals by returning a null output pointer where
/// a buffer was expected.
#[derive(Clone, Copy, Debug, PartialEq, Eq, Structural)]
pub enum BufferError {
    Null,
}

/// An owned copy of one buffer read back from the native side.
pub struct Buffer {
    data: Vec<u8>,
}

impl View for Buffer {
    type V = Seq<u8>;

    closed spec fn view(&self) -> Seq<u8> {
        self.data@
    }
}

/// Prepends the 4-byte big-endian length prefix. A payload too long for the
/// prefix has no wire form; the format stops at `u32::MAX` bytes.
pub fn encode(payload: &[u8]) -> (r: Vec<u8>)
    requires
        payload@.len() <= u32::MAX,
    ensures
        r@ == wire_format(payload@),
{
    let len_bytes = u32_to_be_bytes(payload.len() as u32);
    let mut r: Vec<u8> = Vec::new();
    r.push(len_bytes[0]);
    r.push(len_bytes[1]);
    r.push(len_bytes[2]);
    r.push(len_bytes[3]);
    proof {
        assert(r@ =~= spec_u32_to_be_bytes(payload@.len() as u32));
    }
    let mut i: usize = 0;
    while i < payload.len()
        invariant
            i <= payload@.len() <= u32::MAX,
            r@ == spec_u32_to_be_bytes(payload@.len() as u32) + payload@.subrange(0, i as int),
        decreases payload@.len() - i,
    {
        r.push(payload[i]);
        i = i + 1;
        proof {
            assert(r@ =~= spec_u32_to_be_bytes(payload@.len() as u32) + payload@.subrange(
                0,
                i as int,
            ));
        }
    }
    proof {
        assert(r@ =~= wire_format(payload@));
    }
    r
}

/// Reads the length prefix and copies exactly that many payload bytes.
/// Bytes past the declared payload are ignored.
pub fn decode(wire: &[u8]) -> (r: Vec<u8>)
    requires
        wire_well_formed(wire@),
    ensures
        r@ == wire_payload(wire@),
{
    let len_bytes: [u8; 4] = [wire[0], wire[1], wire[2], wire[3]];
    proof {
        assert(len_bytes@ =~= wire@.subrange(0, 4));
    }
    let len = u32_from_be_bytes(&len_bytes);
    let payload = &wire[4..4 + len as usize];
    slice_to_vec(payload)
}

impl Buffer {
    /// Reads one buffer out of the bytes a native call handed back, or
    /// reports the null output pointer. `None` stands for a null pointer:
    /// in that case the call failed, nothing was copied, and nothing beyond
    /// the pointer itself was ever inspected.
    pub fn from_wire(src: Option<&[u8]>) -> (r: Result<Buffer, BufferError>)
        requires
            src matches Some(s) ==> wire_well_formed(s@),
        ensures
            src is None ==> r == Err::<Buffer, BufferError>(BufferError::Null),
            src matches Some(s) ==> r matches Ok(b) && b@ == wire_payload(s@),
    {
        match src {
            None => Err(BufferError::Null),
            Some(s) => Ok(Buffer { data: decode(s) }),
        }
    }

    /// The buffer's payload bytes.
    pub fn as_slice(&self) -> (r: &[u8])
        ensures
            r@ == self@,
    {
        self.data.as_slice()
    }

    /// Consumes the buffer, handing its payload over as an owned vector.
    pub fn to_vec(self) -> (r: Vec<u8>)
        ensures
            r@ == self@,
    {
        self.data
    }
}

/// Decoding undoes encoding: every payload that fits the length prefix comes
/// back unchanged from its own wire form.
pub proof fn lemma_wire_round_trip(payload: Seq<u8>)
    requires
        payload.len() <= u32::MAX,
    ensures
        wire_well_formed(wire_format(payload)),
        wire_payload(wire_format(payload)) == payload,
{
    lemma_u32_be_round_trip(payload.len() as u32);
    let w = wire_format(payload);
    assert(w.subrange(0, 4) =~= spec_u32_to_be_bytes(payload.len() as u32));
    assert(wire_payload(w) =~= payload);
}

/// Encoding undoes decoding: a well-formed wire buffer with no bytes past
/// its declared payload is exactly the wire form of that payload, so the
/// prefix always matches the payload it carries.
pub proof fn lemma_wire_exact(w: Seq<u8>)
    requires
        wire_well_formed(w),
        w.len() == 4 + wire_declared_len(w),
    ensures
        wire_format(wire_payload(w)) == w,
{
    lemma_u32_be_bytes_round_trip(w.subrange(0, 4));
    assert(wire_format(wire_payload(w)) =~= w);
}

/// The empty payload encodes to exactly four zero bytes, and those four
/// bytes decode back to the empty payload.
pub proof fn lemma_empty_wire()
    ensures
        wire_format(Seq::<u8>::empty()) == seq![0u8, 0u8, 0u8, 0u8],
        wire_payload(seq![0u8, 0u8, 0u8, 0u8]) == Seq::<u8>::empty(),
{
    assert(spec_u32_to_be_bytes(0) =~= seq![0u8, 0u8, 0u8, 0u8]) by {
        assert((0u32 >> 24) & 0xff == 0 && (0u32 >> 16) & 0xff == 0 && (0u32 >> 8) & 0xff == 0
            && 0u32 & 0xff == 0) by (bit_vector);
    }
    assert(wire_format(Seq::<u8>::empty()) =~= seq![0u8, 0u8, 0u8, 0u8]);
    lemma_wire_round_trip(Seq::<u8>::empty());
    assert(wire_payload(seq![0u8, 0u8, 0u8, 0u8]) =~= Seq::<u8>::empty());
}

} // verus!
