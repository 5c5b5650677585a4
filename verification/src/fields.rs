//! Field-element views of flat native output buffers.
//!
//! A proof or verification key comes back as one flat byte buffer. For
//! on-chain or recursive consumption it is re-read as a sequence of 32-byte
//! big-endian integers, each rendered as a 64-digit lowercase hex literal.
//! Some wire versions put a fixed-size header in front of the elements; the
//! header length is a property of the wire version being targeted (lengths of
//! 0, 4 and 97 bytes have been observed), so it is a parameter here, not a
//! constant.

use vstd::prelude::*;

verus! {

/// The value of a byte sequence read as one big-endian unsigned integer.
pub open spec fn be_nat(s: Seq<u8>) -> nat
    decreases s.len(),
{
    if s.len() == 0 {
        0
    } else {
        be_nat(s.drop_last()) * 256 + s.last() as nat
    }
}

/// 16 to the power `k`.
pub open spec fn pow16(k: nat) -> nat
    decreases k,
{
    if k == 0 {
        1
    } else {
        16 * pow16((k - 1) as nat)
    }
}

/// The lowercase hex digit for a value below 16.
pub open spec fn hex_digit(d: nat) -> char
    recommends
        d < 16,
{
    seq!['0', '1', '2', '3', '4', '5', '6', '7', '8', '9', 'a', 'b', 'c', 'd', 'e', 'f'][d as int]
}

/// The 64 hex digits of `n`, most significant first, zero-padded on the
/// left. Exact for every `n` below 16^64.
pub open spec fn hex64(n: nat) -> Seq<char> {
    Seq::new(64, |i: int| hex_digit((n / pow16((63 - i) as nat)) % 16))
}

/// A 32-byte big-endian integer as the hex literal the views hand out.
pub open spec fn hex_str64(n: nat) -> Seq<char> {
    seq!['0', 'x'] + hex64(n)
}

/// How many field elements a payload of `len` bytes re-chunks into: 32-byte
/// chunks, the last one possibly shorter.
pub open spec fn spec_field_count(len: int) -> int {
    (len + 31) / 32
}

/// The `i`-th 32-byte chunk of a payload; the last chunk keeps whatever
/// bytes remain.
pub open spec fn spec_chunk(b: Seq<u8>, i: int) -> Seq<u8>
    recommends
        0 <= i < spec_field_count(b.len() as int),
{
    b.subrange(32 * i, if 32 * i + 32 <= b.len() { 32 * i + 32 } else { b.len() as int })
}

/// Relies on num_bigint: `BigUint::from_bytes_be` reads the bytes as one
/// big-endian unsigned integer, and the crate's `LowerHex` formatting writes
/// that integer's lowercase hex digits, which the fill of 64 pads with
/// leading zeros after the written "0x". At most 32 bytes keep the value
/// below 16^64, so the count of digits is exactly 64.
#[verifier::external_body]
fn chunk_to_hex(chunk: &[u8]) -> (r: String)
    requires
        chunk@.len() <= 32,
    ensures
        r@ == hex_str64(be_nat(chunk@)),
{
    format!("0x{:064x}", num_bigint::BigUint::from_bytes_be(chunk))
}

/// Re-chunks a flat native output buffer into 32-byte big-endian field
/// elements rendered as hex literals, after skipping the wire version's
/// fixed-size header.
pub fn buffer_as_field_strings(buf: &[u8], header_skip: usize) -> (r: Vec<String>)
    requires
        header_skip <= buf@.len(),
    ensures
        r@.len() == spec_field_count(buf@.len() - header_skip),
        forall|j: int|
            0 <= j < r@.len() ==> r@[j]@ == hex_str64(
                be_nat(spec_chunk(buf@.skip(header_skip as int), j)),
            ),
{
    let payload = &buf[header_skip..buf.len()];
    proof {
        assert(payload@ =~= buf@.skip(header_skip as int));
    }
    let len = payload.len();
    let mut r: Vec<String> = Vec::new();
    let mut pos: usize = 0;
    while pos < len
        invariant
            len == payload@.len(),
            pos <= len,
            (pos == 32 * r@.len() && pos <= len) || (pos == len && r@.len() == spec_field_count(
                len as int,
            )),
            forall|j: int|
                0 <= j < r@.len() ==> r@[j]@ == hex_str64(be_nat(spec_chunk(payload@, j))),
        decreases len - pos,
    {
        let end = if len - pos > 32 {
            pos + 32
        } else {
            len
        };
        let chunk = &payload[pos..end];
        proof {
            assert(chunk@ =~= spec_chunk(payload@, r@.len() as int));
        }
        let hex = chunk_to_hex(chunk);
        r.push(hex);
        pos = end;
    }
    proof {
        assert(r@.len() == spec_field_count(len as int));
    }
    r
}

/// The proof buffer of the current default proof family carries no header in
/// front of its field elements: the whole buffer re-chunks.
pub fn acir_proof_as_fields_ultra_honk(proof_buf: &[u8]) -> (r: Vec<String>)
    ensures
        r@.len() == spec_field_count(proof_buf@.len() as int),
        forall|j: int|
            0 <= j < r@.len() ==> r@[j]@ == hex_str64(be_nat(spec_chunk(proof_buf@, j))),
{
    let r = buffer_as_field_strings(proof_buf, 0);
    proof {
        assert(proof_buf@.skip(0) =~= proof_buf@);
    }
    r
}

/// Views that skip their own headers off the same trailing bytes agree on
/// the element count: the count is a function of the bytes after the header
/// alone, never of the header length itself.
pub proof fn lemma_field_count_after_skip(w1: Seq<u8>, skip1: int, w2: Seq<u8>, skip2: int)
    requires
        0 <= skip1 <= w1.len(),
        0 <= skip2 <= w2.len(),
        w1.skip(skip1) == w2.skip(skip2),
    ensures
        spec_field_count(w1.len() - skip1) == spec_field_count(w2.len() - skip2),
{
    assert(w1.skip(skip1).len() == w1.len() - skip1);
    assert(w2.skip(skip2).len() == w2.len() - skip2);
}

} // verus!
