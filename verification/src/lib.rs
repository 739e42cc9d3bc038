//! Decoder for the fixed-size header of the DTX texture resource format.
//!
//! The header is a 164-byte packed record: scalar fields at fixed offsets,
//! a bitmask whose bits are named by the flag constants, a 12-byte extra
//! region with two readings (bytes, or three little-endian 32-bit words),
//! and a 128-byte command string kept verbatim.

pub mod bytes;
pub mod flags;
pub mod header;
