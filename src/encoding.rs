//! Encoding strategies: how a byte sequence is written as text.

use vstd::prelude::*;

verus! {

/// A text representation could not be decoded.
///
/// The message is the complete diagnostic: it names the offending input or
/// the defect found in it.
#[derive(Debug)]
pub struct DecodeError {
    pub message: String,
}

/// What a call of `decode` came to: the bytes, or the diagnostic.
pub open spec fn decode_outcome(r: Result<Vec<u8>, DecodeError>) -> Result<Seq<u8>, Seq<char>> {
    match r {
        Ok(v) => Ok(v@),
        Err(e) => Err(e.message@),
    }
}

/// A stateless codec between byte sequences and text.
///
/// Every text that `encode` produces decodes back to the bytes it came from.
pub trait Encoding {
    /// The text written for `bytes`.
    spec fn spec_encode(bytes: Seq<u8>) -> Seq<char>;

    /// The bytes that `text` stands for, or the diagnostic for a malformed text.
    spec fn spec_decode(text: Seq<char>) -> Result<Seq<u8>, Seq<char>>;

    /// Writes `bytes` as text; never fails. (No Rust slice holds more than
    /// `isize::MAX` bytes.)
    fn encode(bytes: &[u8]) -> (r: String)
        requires
            bytes@.len() <= isize::MAX,
        ensures
            r@ == Self::spec_encode(bytes@),
            Self::spec_decode(r@) == Ok::<Seq<u8>, Seq<char>>(bytes@),
    ;

    /// Reads the bytes back from `text`, or says why it is malformed.
    fn decode(text: &str) -> (r: Result<Vec<u8>, DecodeError>)
        ensures
            decode_outcome(r) == Self::spec_decode(text@),
    ;
}

} // verus!
