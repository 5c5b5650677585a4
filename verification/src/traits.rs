//! Serialization contracts shared by everything that crosses the boundary.
//!
//! A value that can be handed to the native side states its wire bytes as a
//! sequence (`wire`), and `to_buffer` produces exactly those bytes. A value
//! read back from a fixed-size native output states what it holds of the raw
//! bytes (`decodes_to`), and `from_buffer` meets that relation. An ordered
//! collection of serializable values is encoded as a 4-byte big-endian count
//! followed by each element's own encoding in order; there is no outer length
//! prefix over the whole collection.

use crate::buffer::wire_format;
use crate::endian::{spec_u32_to_be_bytes, u32_to_be_bytes};
use vstd::prelude::*;

verus! {

pub trait SerializeBuffer {
    /// Whether the value has a wire form at all: every count in it must fit
    /// the 4-byte prefix.
    spec fn wire_ok(&self) -> bool;

    /// The bytes the value puts on the wire.
    spec fn wire(&self) -> Seq<u8>;

    /// Serializes the value into its wire bytes.
    fn to_buffer(&self) -> (r: Vec<u8>)
        requires
            self.wire_ok(),
        ensures
            r@ == self.wire(),
    ;
}

pub trait DeserializeBuffer: Sized {
    /// The fixed-size native output this value is read from.
    type Slice;

    /// What a value decoded from the raw bytes holds of them.
    spec fn decodes_to(val: Self::Slice, r: Self) -> bool;

    /// Reads the value out of one fixed-size native output.
    fn from_buffer(val: Self::Slice) -> (r: Self)
        ensures
            Self::decodes_to(val, r),
    ;
}

/// The concatenation of the wire bytes of a sequence of values, in order.
pub open spec fn concat_wires<T: SerializeBuffer>(s: Seq<T>) -> Seq<u8>
    decreases s.len(),
{
    if s.len() == 0 {
        Seq::empty()
    } else {
        s[0].wire() + concat_wires(s.drop_first())
    }
}

/// Extending the prefix of a concatenation by one element appends exactly
/// that element's wire bytes.
pub proof fn lemma_concat_wires_take_step<T: SerializeBuffer>(s: Seq<T>, i: int)
    requires
        0 <= i < s.len(),
    ensures
        concat_wires(s.take(i + 1)) == concat_wires(s.take(i)) + s[i].wire(),
    decreases i,
{
    if i == 0 {
        assert(s.take(0) =~= Seq::<T>::empty());
        assert(s.take(1) =~= seq![s[0]]);
        assert(seq![s[0]].drop_first() =~= Seq::<T>::empty());
        assert(concat_wires(s.take(i + 1)) =~= concat_wires(s.take(i)) + s[i].wire());
    } else {
        let t = s.drop_first();
        lemma_concat_wires_take_step(t, i - 1);
        assert(s.take(i + 1).drop_first() =~= t.take(i));
        assert(s.take(i).drop_first() =~= t.take(i - 1));
        assert(s.take(i + 1)[0] == s[0]);
        assert(s.take(i)[0] == s[0]);
        assert(t[i - 1] == s[i]);
        assert(concat_wires(s.take(i + 1)) =~= concat_wires(s.take(i)) + s[i].wire());
    }
}

/// The whole sequence is its own full prefix.
pub proof fn lemma_concat_wires_take_all<T: SerializeBuffer>(s: Seq<T>)
    ensures
        concat_wires(s.take(s.len() as int)) == concat_wires(s),
{
    assert(s.take(s.len() as int) =~= s);
}

impl<T: SerializeBuffer> SerializeBuffer for &[T] {
    open spec fn wire_ok(&self) -> bool {
        self@.len() <= u32::MAX && forall|i: int|
            0 <= i < self@.len() ==> #[trigger] self@[i].wire_ok()
    }

    open spec fn wire(&self) -> Seq<u8> {
        spec_u32_to_be_bytes(self@.len() as u32) + concat_wires(self@)
    }

    fn to_buffer(&self) -> (r: Vec<u8>) {
        let len_bytes = u32_to_be_bytes(self.len() as u32);
        let mut r: Vec<u8> = Vec::new();
        r.push(len_bytes[0]);
        r.push(len_bytes[1]);
        r.push(len_bytes[2]);
        r.push(len_bytes[3]);
        proof {
            assert(r@ =~= spec_u32_to_be_bytes(self@.len() as u32));
            assert(concat_wires(self@.take(0)) =~= Seq::<u8>::empty()) by {
                assert(self@.take(0) =~= Seq::<T>::empty());
            }
            assert(r@ =~= spec_u32_to_be_bytes(self@.len() as u32) + concat_wires(self@.take(0)));
        }
        let mut i: usize = 0;
        while i < self.len()
            invariant
                i <= self@.len() <= u32::MAX,
                forall|j: int| 0 <= j < self@.len() ==> #[trigger] self@[j].wire_ok(),
                r@ == spec_u32_to_be_bytes(self@.len() as u32) + concat_wires(
                    self@.take(i as int),
                ),
            decreases self@.len() - i,
        {
            let mut elem_bytes = self[i].to_buffer();
            r.append(&mut elem_bytes);
            proof {
                lemma_concat_wires_take_step(self@, i as int);
            }
            i = i + 1;
        }
        proof {
            lemma_concat_wires_take_all(self@);
        }
        r
    }
}

impl SerializeBuffer for u8 {
    open spec fn wire_ok(&self) -> bool {
        true
    }

    open spec fn wire(&self) -> Seq<u8> {
        seq![*self]
    }

    fn to_buffer(&self) -> (r: Vec<u8>) {
        let mut r: Vec<u8> = Vec::new();
        r.push(*self);
        proof {
            assert(r@ =~= seq![*self]);
        }
        r
    }
}

/// Byte elements put themselves on the wire unchanged: the concatenation of
/// their one-byte encodings is the byte sequence itself.
pub proof fn lemma_concat_wires_bytes(s: Seq<u8>)
    ensures
        concat_wires(s) == s,
    decreases s.len(),
{
    if s.len() == 0 {
        assert(concat_wires(s) =~= s);
    } else {
        lemma_concat_wires_bytes(s.drop_first());
        assert(concat_wires(s) =~= s);
    }
}

/// For plain bytes the generic sequence encoding and the buffer codec
/// agree: a byte slice's wire form is exactly the length-prefixed buffer
/// shape of the same bytes.
pub proof fn lemma_byte_slice_wire(s: &[u8])
    ensures
        s.wire() == wire_format(s@),
{
    lemma_concat_wires_bytes(s@);
}

} // verus!
