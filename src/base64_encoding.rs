//! The base64 strategies: standard and URL-safe alphabets, without padding.

use base64::engine::general_purpose;
use base64::Engine;
use vstd::prelude::*;

use crate::encoding::{DecodeError, Encoding};
use crate::text::{decimal, decimal_string};

verus! {

/// A defect that the base64 decoder reports.
#[derive(Debug, Clone, Copy, PartialEq, Eq)]
pub enum Base64Error {
    /// The byte at `offset` is not in the alphabet, or is misplaced padding.
    InvalidByte { offset: usize, byte: u8 },
    /// The number of symbols cannot be a base64 text.
    InvalidLength { length: usize },
    /// The last symbol, at `offset`, carries bits that would be discarded.
    InvalidLastSymbol { offset: usize, byte: u8 },
    /// Padding where none is allowed.
    InvalidPadding,
}

/// The standard-alphabet base64 text for `bytes`, without padding.
pub uninterp spec fn standard_encoding(bytes: Seq<u8>) -> Seq<char>;

/// What standard-alphabet base64 decoding, without padding, makes of `text`.
pub uninterp spec fn standard_decoding(text: Seq<char>) -> Result<Seq<u8>, Base64Error>;

/// The URL-safe base64 text for `bytes`, without padding.
pub uninterp spec fn url_safe_encoding(bytes: Seq<u8>) -> Seq<char>;

/// What URL-safe base64 decoding, without padding, makes of `text`.
pub uninterp spec fn url_safe_decoding(text: Seq<char>) -> Result<Seq<u8>, Base64Error>;

/// What a call of a base64 decoder came to.
pub open spec fn base64_outcome(r: Result<Vec<u8>, Base64Error>) -> Result<Seq<u8>, Base64Error> {
    match r {
        Ok(v) => Ok(v@),
        Err(e) => Err(e),
    }
}

/// Decoding that succeeds with exactly `bytes`.
pub open spec fn decoded_exactly(bytes: Seq<u8>) -> Result<Seq<u8>, Base64Error> {
    Ok(bytes)
}

/// Relies on `Engine::encode` of base64's `STANDARD_NO_PAD`: it does not
/// panic for a slice that Rust can hold, and the same engine decodes its
/// output back to `bytes`.
#[verifier::external_body]
fn standard_encode(bytes: &[u8]) -> (r: String)
    requires
        bytes@.len() <= isize::MAX,
    ensures
        r@ == standard_encoding(bytes@),
        standard_decoding(r@) == decoded_exactly(bytes@),
{
    general_purpose::STANDARD_NO_PAD.encode(bytes)
}

/// Relies on `Engine::decode` of base64's `STANDARD_NO_PAD`.
#[verifier::external_body]
fn standard_decode(text: &str) -> (r: Result<Vec<u8>, Base64Error>)
    ensures
        base64_outcome(r) == standard_decoding(text@),
{
    match general_purpose::STANDARD_NO_PAD.decode(text) {
        Ok(v) => Ok(v),
        Err(base64::DecodeError::InvalidByte(offset, byte)) => Err(
            Base64Error::InvalidByte { offset, byte },
        ),
        Err(base64::DecodeError::InvalidLength(length)) => Err(
            Base64Error::InvalidLength { length },
        ),
        Err(base64::DecodeError::InvalidLastSymbol(offset, byte)) => Err(
            Base64Error::InvalidLastSymbol { offset, byte },
        ),
        Err(base64::DecodeError::InvalidPadding) => Err(Base64Error::InvalidPadding),
    }
}

/// Relies on `Engine::encode` of base64's `URL_SAFE_NO_PAD`: it does not
/// panic for a slice that Rust can hold, and the same engine decodes its
/// output back to `bytes`.
#[verifier::external_body]
fn url_safe_encode(bytes: &[u8]) -> (r: String)
    requires
        bytes@.len() <= isize::MAX,
    ensures
        r@ == url_safe_encoding(bytes@),
        url_safe_decoding(r@) == decoded_exactly(bytes@),
{
    general_purpose::URL_SAFE_NO_PAD.encode(bytes)
}

/// Relies on `Engine::decode` of base64's `URL_SAFE_NO_PAD`.
#[verifier::external_body]
fn url_safe_decode(text: &str) -> (r: Result<Vec<u8>, Base64Error>)
    ensures
        base64_outcome(r) == url_safe_decoding(text@),
{
    match general_purpose::URL_SAFE_NO_PAD.decode(text) {
        Ok(v) => Ok(v),
        Err(base64::DecodeError::InvalidByte(offset, byte)) => Err(
            Base64Error::InvalidByte { offset, byte },
        ),
        Err(base64::DecodeError::InvalidLength(length)) => Err(
            Base64Error::InvalidLength { length },
        ),
        Err(base64::DecodeError::InvalidLastSymbol(offset, byte)) => Err(
            Base64Error::InvalidLastSymbol { offset, byte },
        ),
        Err(base64::DecodeError::InvalidPadding) => Err(Base64Error::InvalidPadding),
    }
}

/// The diagnostic for a defect in a base64 text.
pub open spec fn base64_error_message(e: Base64Error) -> Seq<char> {
    match e {
        Base64Error::InvalidByte { offset, byte } => "Invalid symbol "@ + decimal(byte as nat)
            + ", offset "@ + decimal(offset as nat) + "."@,
        Base64Error::InvalidLength { length } => "Invalid input length: "@ + decimal(
            length as nat,
        ),
        Base64Error::InvalidLastSymbol { offset, byte } => "Invalid last symbol "@ + decimal(
            byte as nat,
        ) + ", offset "@ + decimal(offset as nat) + "."@,
        Base64Error::InvalidPadding => "Invalid padding"@,
    }
}

/// Decoding as a strategy reports it: the bytes, or the diagnostic.
pub open spec fn base64_text_decoding(r: Result<Seq<u8>, Base64Error>) -> Result<Seq<u8>, Seq<char>> {
    match r {
        Ok(v) => Ok(v),
        Err(e) => Err(base64_error_message(e)),
    }
}

fn base64_error_text(e: Base64Error) -> (r: String)
    ensures
        r@ == base64_error_message(e),
{
    match e {
        Base64Error::InvalidByte { offset, byte } => {
            let symbol = decimal_string(byte as usize);
            let at = decimal_string(offset);
            String::from_str("Invalid symbol ").concat(symbol.as_str()).concat(
                ", offset ",
            ).concat(at.as_str()).concat(".")
        },
        Base64Error::InvalidLength { length } => {
            let n = decimal_string(length);
            String::from_str("Invalid input length: ").concat(n.as_str())
        },
        Base64Error::InvalidLastSymbol { offset, byte } => {
            let symbol = decimal_string(byte as usize);
            let at = decimal_string(offset);
            String::from_str("Invalid last symbol ").concat(symbol.as_str()).concat(
                ", offset ",
            ).concat(at.as_str()).concat(".")
        },
        Base64Error::InvalidPadding => String::from_str("Invalid padding"),
    }
}

/// Base64 with the standard alphabet (`+` and `/`) and no padding
/// (`[1, 0xf2, 63, 0xf4]` is written `"AfI/9A"`).
pub struct Base64;

impl Encoding for Base64 {
    open spec fn spec_encode(bytes: Seq<u8>) -> Seq<char> {
        standard_encoding(bytes)
    }

    open spec fn spec_decode(text: Seq<char>) -> Result<Seq<u8>, Seq<char>> {
        base64_text_decoding(standard_decoding(text))
    }

    fn encode(bytes: &[u8]) -> (r: String) {
        standard_encode(bytes)
    }

    fn decode(text: &str) -> (r: Result<Vec<u8>, DecodeError>) {
        match standard_decode(text) {
            Ok(v) => Ok(v),
            Err(e) => Err(DecodeError { message: base64_error_text(e) }),
        }
    }
}

/// Base64 with the URL-safe alphabet (`-` and `_` in place of `+` and `/`)
/// and no padding (`[1, 0xf2, 63, 0xf4]` is written `"AfI_9A"`).
pub struct Base64Url;

impl Encoding for Base64Url {
    open spec fn spec_encode(bytes: Seq<u8>) -> Seq<char> {
        url_safe_encoding(bytes)
    }

    open spec fn spec_decode(text: Seq<char>) -> Result<Seq<u8>, Seq<char>> {
        base64_text_decoding(url_safe_decoding(text))
    }

    fn encode(bytes: &[u8]) -> (r: String) {
        url_safe_encode(bytes)
    }

    fn decode(text: &str) -> (r: Result<Vec<u8>, DecodeError>) {
        match url_safe_decode(text) {
            Ok(v) => Ok(v),
            Err(e) => Err(DecodeError { message: base64_error_text(e) }),
        }
    }
}

} // verus!
