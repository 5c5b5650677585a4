//! Fixed-width value models: field elements and curve points.
//!
//! A field element is exactly 32 big-endian bytes; whether the value is
//! canonically reduced modulo the field's modulus is the native library's
//! concern, not checked here. A curve point is the ordered pair (x, y) of two
//! field elements, serialized as the 32 bytes of x followed by the 32 bytes
//! of y — x strictly before y, as the native side expects; neither
//! point-on-curve nor point-at-infinity validation happens here.

use crate::traits::{DeserializeBuffer, SerializeBuffer};
use vstd::prelude::*;
use vstd::slice::slice_to_vec;

verus! {

broadcast use vstd::array::group_array_axioms;

/// A scalar of the native field, as 32 big-endian bytes.
#[derive(Debug, PartialEq, Eq)]
pub struct Fr {
    pub data: [u8; 32],
}

/// A scalar of the auxiliary field used by multi-party key material, as 32
/// big-endian bytes.
#[derive(Debug, PartialEq, Eq)]
pub struct Fq {
    pub data: [u8; 32],
}

/// A curve point: x first, then y. Swapping the halves would name a
/// different point with no error signal, so the order is part of the
/// contract.
#[derive(Debug, PartialEq, Eq)]
pub struct Point {
    pub x: Fr,
    pub y: Fr,
}

impl SerializeBuffer for Fr {
    open spec fn wire_ok(&self) -> bool {
        true
    }

    open spec fn wire(&self) -> Seq<u8> {
        self.data@
    }

    fn to_buffer(&self) -> (r: Vec<u8>) {
        slice_to_vec(self.data.as_slice())
    }
}

impl DeserializeBuffer for Fr {
    type Slice = [u8; 32];

    open spec fn decodes_to(val: [u8; 32], r: Fr) -> bool {
        r.data == val
    }

    fn from_buffer(val: [u8; 32]) -> (r: Fr) {
        Fr { data: val }
    }
}

impl SerializeBuffer for Fq {
    open spec fn wire_ok(&self) -> bool {
        true
    }

    open spec fn wire(&self) -> Seq<u8> {
        self.data@
    }

    fn to_buffer(&self) -> (r: Vec<u8>) {
        slice_to_vec(self.data.as_slice())
    }
}

impl DeserializeBuffer for Fq {
    type Slice = [u8; 32];

    open spec fn decodes_to(val: [u8; 32], r: Fq) -> bool {
        r.data == val
    }

    fn from_buffer(val: [u8; 32]) -> (r: Fq) {
        Fq { data: val }
    }
}

impl SerializeBuffer for Point {
    open spec fn wire_ok(&self) -> bool {
        true
    }

    open spec fn wire(&self) -> Seq<u8> {
        self.x.data@ + self.y.data@
    }

    fn to_buffer(&self) -> (r: Vec<u8>) {
        let mut r = slice_to_vec(self.x.data.as_slice());
        let mut y_bytes = slice_to_vec(self.y.data.as_slice());
        r.append(&mut y_bytes);
        r
    }
}

impl DeserializeBuffer for Point {
    type Slice = [u8; 64];

    open spec fn decodes_to(val: [u8; 64], r: Point) -> bool {
        r.x.data@ == val@.subrange(0, 32) && r.y.data@ == val@.subrange(32, 64)
    }

    fn from_buffer(val: [u8; 64]) -> (r: Point) {
        let mut x_data: [u8; 32] = [0u8; 32];
        let mut y_data: [u8; 32] = [0u8; 32];
        let mut i: usize = 0;
        while i < 32
            invariant
                i <= 32,
                x_data@.len() == 32,
                forall|j: int| 0 <= j < i ==> x_data@[j] == val@[j],
            decreases 32 - i,
        {
            x_data[i] = val[i];
            i = i + 1;
        }
        let mut i: usize = 0;
        while i < 32
            invariant
                i <= 32,
                y_data@.len() == 32,
                forall|j: int| 0 <= j < i ==> y_data@[j] == val@[32 + j],
            decreases 32 - i,
        {
            y_data[i] = val[32 + i];
            i = i + 1;
        }
        let r = Point { x: Fr { data: x_data }, y: Fr { data: y_data } };
        proof {
            assert(r.x.data@ =~= val@.subrange(0, 32));
            assert(r.y.data@ =~= val@.subrange(32, 64));
        }
        r
    }
}

/// Reading a field element back from its own 32 serialized bytes gives the
/// element again, for every 32-byte value.
pub proof fn lemma_fr_round_trip(f: Fr, a: [u8; 32], r: Fr)
    requires
        a@ == f.wire(),
        Fr::decodes_to(a, r),
    ensures
        r == f,
{
    assert(r.data =~= f.data);
}

/// Reading a point back from its own 64 serialized bytes gives the point
/// again, for every 64-byte value.
pub proof fn lemma_point_round_trip(p: Point, a: [u8; 64], r: Point)
    requires
        a@ == p.wire(),
        Point::decodes_to(a, r),
    ensures
        r == p,
{
    assert(r.x.data@ =~= p.x.data@);
    assert(r.y.data@ =~= p.y.data@);
    assert(r.x.data =~= p.x.data);
    assert(r.y.data =~= p.y.data);
}

/// x precedes y, and stays first: re-serializing a decoded point reproduces
/// the input's first 32 bytes in the first 32 output bytes.
pub proof fn lemma_point_x_first(a: [u8; 64], r: Point)
    requires
        Point::decodes_to(a, r),
    ensures
        r.wire().subrange(0, 32) == a@.subrange(0, 32),
{
    assert(r.wire().subrange(0, 32) =~= r.x.data@);
}

} // verus!
