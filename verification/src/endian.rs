//! Big-endian encoding of the multi-byte integers that cross the native
//! boundary.
//!
//! Every integer passed by value to or from the native library travels in
//! big-endian byte order, whatever the host platform's native order is. All
//! byte-order conversions in this crate go through this one module; no call
//! site swaps bytes on its own.

use vstd::prelude::*;

verus! {

/// The four bytes of `x`, most significant first.
pub open spec fn spec_u32_to_be_bytes(x: u32) -> Seq<u8> {
    seq![
        ((x >> 24) & 0xff) as u8,
        ((x >> 16) & 0xff) as u8,
        ((x >> 8) & 0xff) as u8,
        (x & 0xff) as u8,
    ]
}

/// The value of four bytes read most significant first.
pub open spec fn spec_u32_from_be_bytes(s: Seq<u8>) -> u32
    recommends
        s.len() == 4,
{
    ((s[0] as u32) << 24) | ((s[1] as u32) << 16) | ((s[2] as u32) << 8) | (s[3] as u32)
}

pub fn u32_to_be_bytes(x: u32) -> (r: [u8; 4])
    ensures
        r@ == spec_u32_to_be_bytes(x),
{
    let r: [u8; 4] = [
        ((x >> 24) & 0xff) as u8,
        ((x >> 16) & 0xff) as u8,
        ((x >> 8) & 0xff) as u8,
        (x & 0xff) as u8,
    ];
    proof {
        assert(r@ =~= spec_u32_to_be_bytes(x));
    }
    r
}

pub fn u32_from_be_bytes(s: &[u8; 4]) -> (x: u32)
    ensures
        x == spec_u32_from_be_bytes(s@),
{
    ((s[0] as u32) << 24) | ((s[1] as u32) << 16) | ((s[2] as u32) << 8) | (s[3] as u32)
}

/// Reading back the four bytes of a value gives the value.
pub proof fn lemma_u32_be_round_trip(x: u32)
    ensures
        spec_u32_from_be_bytes(spec_u32_to_be_bytes(x)) == x,
{
    let s = spec_u32_to_be_bytes(x);
    let b0 = (x >> 24) & 0xff;
    let b1 = (x >> 16) & 0xff;
    let b2 = (x >> 8) & 0xff;
    let b3 = x & 0xff;
    assert(((b0 as u8) as u32) << 24 | ((b1 as u8) as u32) << 16 | ((b2 as u8) as u32) << 8 | (
    (b3 as u8) as u32) == x) by (bit_vector)
        requires
            b0 == (x >> 24) & 0xff,
            b1 == (x >> 16) & 0xff,
            b2 == (x >> 8) & 0xff,
            b3 == x & 0xff,
    ;
}

/// Writing back the value of four bytes gives the same four bytes.
pub proof fn lemma_u32_be_bytes_round_trip(s: Seq<u8>)
    requires
        s.len() == 4,
    ensures
        spec_u32_to_be_bytes(spec_u32_from_be_bytes(s)) == s,
{
    let x = spec_u32_from_be_bytes(s);
    let s0 = s[0];
    let s1 = s[1];
    let s2 = s[2];
    let s3 = s[3];
    assert((((s0 as u32) << 24 | (s1 as u32) << 16 | (s2 as u32) << 8 | (s3 as u32)) >> 24 & 0xff)
        as u8 == s0) by (bit_vector);
    assert((((s0 as u32) << 24 | (s1 as u32) << 16 | (s2 as u32) << 8 | (s3 as u32)) >> 16 & 0xff)
        as u8 == s1) by (bit_vector);
    assert((((s0 as u32) << 24 | (s1 as u32) << 16 | (s2 as u32) << 8 | (s3 as u32)) >> 8 & 0xff)
        as u8 == s2) by (bit_vector);
    assert((((s0 as u32) << 24 | (s1 as u32) << 16 | (s2 as u32) << 8 | (s3 as u32)) & 0xff) as u8
        == s3) by (bit_vector);
    assert(spec_u32_to_be_bytes(x) =~= s);
}

} // verus!
