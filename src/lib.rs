//! Byte sequences that serialize as text (hex, base64) in human-readable
//! formats and as raw bytes in binary formats.
//!
//! The library decides the representation, decodes and validates what a
//! format hands back, and builds the diagnostics that a host framework
//! reports. The framework itself stays outside: callers tell the library
//! whether the active format is human-readable and pass on the string or
//! the byte sequence that the format produced.

pub mod base64_encoding;
pub mod encoding;
pub mod hex_encoding;
pub mod low_level;
pub mod text;

pub use base64_encoding::{Base64, Base64Error, Base64Url};
pub use encoding::{decode_outcome, DecodeError, Encoding};
pub use hex_encoding::{Hex, HexError};
pub use low_level::{
    array_from_bytes, array_from_str, check_length, deserialize_array, deserialize_slice,
    finish_construction, requested_shape, serialize_slice, slice_from_str, ConversionError,
    Requested, Serialized, SourceShape,
};
pub use text::decimal_string;
