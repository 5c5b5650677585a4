//! The one-time structured-reference-string setup.
//!
//! The native library must load its SRS material once, before any proving
//! work, and the load is not safe to repeat concurrently with other calls.
//! Rather than leave that as ambient global state, the load is witnessed by a
//! capability value: the caller performs the native load with the big-endian
//! count built here, keeps the `Srs` it received, and every proving request
//! demands one by type.

use crate::endian::{spec_u32_to_be_bytes, u32_to_be_bytes};
use vstd::prelude::*;

verus! {

/// Witness that the structured reference string has been loaded, and with
/// how many points.
pub struct Srs {
    num_points: u32,
}

impl Srs {
    pub closed spec fn spec_num_points(&self) -> u32 {
        self.num_points
    }

    pub fn num_points(&self) -> (n: u32)
        ensures
            n == self.spec_num_points(),
    {
        self.num_points
    }
}

/// Builds the big-endian point count for the native SRS load and the
/// capability that records it. The point data and the g2 point cross the
/// boundary as raw bytes with no further marshaling.
pub fn init_srs_request(num_points: u32) -> (r: ([u8; 4], Srs))
    ensures
        r.0@ == spec_u32_to_be_bytes(num_points),
        r.1.spec_num_points() == num_points,
{
    (u32_to_be_bytes(num_points), Srs { num_points })
}

} // verus!
