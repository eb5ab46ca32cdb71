//! Compact text codec for version-4, RFC4122-variant 128-bit identifiers.
//!
//! A v4/RFC4122 identifier carries 6 structurally fixed bits (a 4-bit version
//! marker and a 2-bit variant marker). This crate strips them, repacks the
//! remaining 122 bits into a 16-byte compact payload whose top 6 bits are zero
//! padding, and hands that payload to a Base45 text codec. Decoding reverses
//! the transform exactly, re-synthesizing the fixed bits at their canonical
//! values.

use vstd::prelude::*;

pub mod api;
pub mod base45;
pub mod bits;
pub mod fixed;
pub mod laws;
pub mod text;
pub mod transform;
pub mod uuid_str;

pub use api::UuidV4;
pub use api::decode_to_bytes;
pub use api::decode_to_string;
pub use api::decode_to_uuid;
pub use api::encode_uuid;
pub use api::encode_uuid_bytes;
pub use api::encode_uuid_str;
pub use api::parse_uuid_input;
pub use transform::compact_bytes_to_uuid;
pub use transform::uuid_to_compact_bytes;
pub use uuid_str::generate_v4;

verus! {

/// The failures a codec operation can report. Every operation returns one of
/// these instead of panicking; encode/decode either fully succeeds or fully
/// fails.
#[derive(Debug)]
pub enum Uuid45Error {
    /// The input string does not parse as an identifier in any accepted form.
    InvalidUuid(String),
    /// The input text violates the Base45 alphabet, pairing or range rules.
    InvalidBase45(String),
    /// A compact payload is not exactly 16 bytes long.
    InvalidLength { expected: usize, actual: usize },
    /// A compact payload's 6 reserved high bits are not all zero.
    NonZeroPadding,
}

} // verus!
