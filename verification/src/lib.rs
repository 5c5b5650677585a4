//! Marshaling layer for a native proving-system library.
//!
//! The native library speaks a flat-buffer wire format: every variable-length
//! value crosses the boundary as a 4-byte big-endian length prefix followed by
//! exactly that many payload bytes, and every multi-byte integer passed by
//! value is big-endian. This crate holds the verified side of that protocol:
//! the length-prefixed buffer codec, the fixed-width field-element and curve
//! point models, the re-chunking of flat output buffers into field-element
//! strings, and the state machine that keeps calls on an opaque native handle
//! in a legal order. The unsafe boundary crossings themselves (raw pointer
//! reads and the foreign calls) live outside this crate and hand plain byte
//! sequences in and out.

pub mod acir;
pub mod buffer;
pub mod endian;
pub mod fields;
pub mod handle;
pub mod models;
pub mod srs;
pub mod traits;
