//! The `0x`-prefixed lowercase hexadecimal strategy.

use vstd::prelude::*;
use vstd::utf8::*;

use crate::encoding::{DecodeError, Encoding};
use crate::text::{char_debug, decimal, decimal_string, quoted_char, quoted_str, str_debug};

verus! {

/// The lowercase hex digit for `d`, for `0 <= d < 16`.
pub open spec fn hex_digit(d: int) -> char {
    if d == 0 {
        '0'
    } else if d == 1 {
        '1'
    } else if d == 2 {
        '2'
    } else if d == 3 {
        '3'
    } else if d == 4 {
        '4'
    } else if d == 5 {
        '5'
    } else if d == 6 {
        '6'
    } else if d == 7 {
        '7'
    } else if d == 8 {
        '8'
    } else if d == 9 {
        '9'
    } else if d == 10 {
        'a'
    } else if d == 11 {
        'b'
    } else if d == 12 {
        'c'
    } else if d == 13 {
        'd'
    } else if d == 14 {
        'e'
    } else {
        'f'
    }
}

/// Two lowercase digits for each byte, the high nibble first.
pub open spec fn hex_lower(bytes: Seq<u8>) -> Seq<char> {
    Seq::new(
        2 * bytes.len(),
        |i: int|
            if i % 2 == 0 {
                hex_digit(bytes[i / 2] as int / 16)
            } else {
                hex_digit(bytes[i / 2] as int % 16)
            },
    )
}

/// The value of a hex digit in either case, if `b` is one.
pub open spec fn hex_value(b: u8) -> Option<int> {
    if 0x30 <= b <= 0x39 {
        Some(b - 0x30)
    } else if 0x61 <= b <= 0x66 {
        Some(b - 0x61 + 10)
    } else if 0x41 <= b <= 0x46 {
        Some(b - 0x41 + 10)
    } else {
        None
    }
}

/// A defect that the hex digit decoder reports.
#[derive(Debug, Clone, Copy, PartialEq, Eq)]
pub enum HexError {
    /// The byte at `index` is no hex digit; `c` is that byte as a character.
    InvalidHexCharacter { c: char, index: usize },
    /// The number of digits is odd.
    OddLength,
    /// The digits do not fill a container of fixed size.
    InvalidStringLength,
}

/// Whether some byte of `digits` is no hex digit.
pub open spec fn has_invalid_digit(digits: Seq<u8>) -> bool {
    exists|i: int| 0 <= i < digits.len() && #[trigger] hex_value(digits[i]) is None
}

/// The first position of `digits` that holds no hex digit.
pub open spec fn first_invalid_digit(digits: Seq<u8>) -> int {
    choose|i: int|
        0 <= i < digits.len() && #[trigger] hex_value(digits[i]) is None && forall|j: int|
            0 <= j < i ==> #[trigger] hex_value(digits[j]) is Some
}

/// The bytes written by hex `digits`, two digits to a byte.
pub open spec fn hex_pairs(digits: Seq<u8>) -> Seq<u8> {
    Seq::new(
        digits.len() / 2,
        |i: int|
            (hex_value(digits[2 * i])->0 * 16 + hex_value(digits[2 * i + 1])->0) as u8,
    )
}

/// Decoding hex digits: an odd count is refused first, then the first byte
/// that is no digit, in either case.
pub open spec fn hex_decoding(digits: Seq<u8>) -> Result<Seq<u8>, HexError> {
    if digits.len() % 2 != 0 {
        Err(HexError::OddLength)
    } else if has_invalid_digit(digits) {
        let i = first_invalid_digit(digits);
        Err(HexError::InvalidHexCharacter { c: digits[i] as char, index: i as usize })
    } else {
        Ok(hex_pairs(digits))
    }
}

/// What a call of the hex digit decoder came to.
pub open spec fn hex_outcome(r: Result<Vec<u8>, HexError>) -> Result<Seq<u8>, HexError> {
    match r {
        Ok(v) => Ok(v@),
        Err(e) => Err(e),
    }
}

/// Relies on `hex::encode`: two lowercase digits per byte, high nibble first.
#[verifier::external_body]
fn encode_hex_digits(bytes: &[u8]) -> (r: String)
    ensures
        r@ == hex_lower(bytes@),
{
    hex::encode(bytes)
}

/// Relies on `hex::decode` (with `val` and `FromHex for Vec<u8>`): an odd
/// length fails first; otherwise the digit pairs are read in order and the
/// first byte that is no digit fails with its position.
#[verifier::external_body]
fn decode_hex_digits(digits: &[u8]) -> (r: Result<Vec<u8>, HexError>)
    ensures
        hex_outcome(r) == hex_decoding(digits@),
{
    match hex::decode(digits) {
        Ok(v) => Ok(v),
        Err(hex::FromHexError::InvalidHexCharacter { c, index }) => Err(
            HexError::InvalidHexCharacter { c, index },
        ),
        Err(hex::FromHexError::OddLength) => Err(HexError::OddLength),
        Err(hex::FromHexError::InvalidStringLength) => Err(HexError::InvalidStringLength),
    }
}

/// The diagnostic for a defect in hex digits.
pub open spec fn hex_error_message(e: HexError) -> Seq<char> {
    match e {
        HexError::InvalidHexCharacter { c, index } => "Invalid character "@ + char_debug(c)
            + " at position "@ + decimal(index as nat),
        HexError::OddLength => "Odd number of digits"@,
        HexError::InvalidStringLength => "Invalid string length"@,
    }
}

/// The diagnostic for a text that does not start with `0x`.
pub open spec fn missing_prefix_message(text: Seq<char>) -> Seq<char> {
    "invalid value: string "@ + str_debug(text) + ", expected 0x-prefixed hex-encoded bytes"@
}

/// Whether the encoded text starts with the bytes of `0x`.
pub open spec fn has_hex_prefix(b: Seq<u8>) -> bool {
    b.len() >= 2 && b[0] == 0x30 && b[1] == 0x78
}

/// Decoding a `0x`-prefixed hex text. The prefix is looked for in the
/// text's UTF-8 bytes, so that a multi-byte character is never split.
pub open spec fn hex_text_decoding(text: Seq<char>) -> Result<Seq<u8>, Seq<char>> {
    let b = encode_utf8(text);
    if has_hex_prefix(b) {
        match hex_decoding(b.subrange(2, b.len() as int)) {
            Ok(v) => Ok(v),
            Err(e) => Err(hex_error_message(e)),
        }
    } else {
        Err(missing_prefix_message(text))
    }
}

fn hex_error_text(e: HexError) -> (r: String)
    ensures
        r@ == hex_error_message(e),
{
    match e {
        HexError::InvalidHexCharacter { c, index } => {
            let quoted = quoted_char(c);
            let position = decimal_string(index);
            String::from_str("Invalid character ").concat(quoted.as_str()).concat(
                " at position ",
            ).concat(position.as_str())
        },
        HexError::OddLength => String::from_str("Odd number of digits"),
        HexError::InvalidStringLength => String::from_str("Invalid string length"),
    }
}

proof fn lemma_hex_digit(d: int)
    requires
        0 <= d < 16,
    ensures
        hex_value(hex_digit(d) as u8) == Some(d),
        '\0' <= hex_digit(d) <= '\u{7f}',
{
}

/// Every hex text written for `bytes` decodes back to `bytes`.
pub proof fn lemma_hex_round_trip(bytes: Seq<u8>)
    ensures
        hex_text_decoding("0x"@ + hex_lower(bytes)) == Ok::<Seq<u8>, Seq<char>>(bytes),
{
    reveal_strlit("0x");
    let h = hex_lower(bytes);
    let t = "0x"@ + h;
    assert forall|i: int| 0 <= i < h.len() implies hex_value(#[trigger] h[i] as u8) == Some(
        if i % 2 == 0 {
            bytes[i / 2] as int / 16
        } else {
            bytes[i / 2] as int % 16
        },
    ) && '\0' <= h[i] <= '\u{7f}' by {
        if i % 2 == 0 {
            lemma_hex_digit(bytes[i / 2] as int / 16);
        } else {
            lemma_hex_digit(bytes[i / 2] as int % 16);
        }
    }
    assert(is_ascii_chars(t)) by {
        assert forall|i: int| 0 <= i < t.len() implies '\0' <= #[trigger] t[i] <= '\u{7f}' by {
            if i >= 2 {
                assert(t[i] == h[i - 2]);
            }
        }
    }
    is_ascii_chars_encode_utf8(t);
    let b = encode_utf8(t);
    let d = b.subrange(2, b.len() as int);
    assert(has_hex_prefix(b));
    assert forall|i: int| 0 <= i < d.len() implies #[trigger] d[i] == h[i] as u8 by {
        assert(t[i + 2] == h[i]);
    }
    assert(!has_invalid_digit(d)) by {
        assert forall|i: int| 0 <= i < d.len() implies #[trigger] hex_value(d[i]) is Some by {
            assert(d[i] == h[i] as u8);
        }
    }
    assert(hex_pairs(d) =~= bytes) by {
        assert forall|i: int| 0 <= i < bytes.len() implies #[trigger] hex_pairs(d)[i] == bytes[i] by {
            assert(d[2 * i] == h[2 * i] as u8);
            assert(d[2 * i + 1] == h[2 * i + 1] as u8);
            assert((2 * i) / 2 == i);
            assert((2 * i + 1) / 2 == i);
            assert((2 * i) % 2 == 0);
            assert((2 * i + 1) % 2 == 1);
        }
    }
}

/// A text that does not start with the character `0` is refused as lacking
/// the prefix. This holds too where the first character takes several bytes
/// in UTF-8: the prefix is compared byte by byte, so no character is split.
pub proof fn lemma_no_zero_first_refused(text: Seq<char>)
    requires
        text.len() > 0,
        text[0] != '0',
    ensures
        hex_text_decoding(text) == Err::<Seq<u8>, Seq<char>>(missing_prefix_message(text)),
{
    encode_utf8_first_scalar(text);
    let b = encode_utf8(text);
    if b[0] == 0x30 {
        assert((0x30u8 & 0x7Fu8) == 0x30u8) by (bit_vector);
        assert(decode_first_scalar(b) == 0x30u32);
        char_u32_cast(text[0], 0x30u32);
        char_u32_cast('0', 0x30u32);
    }
}

/// The `0x`-prefixed, lowercase hexadecimal strategy (`[1, 2]` is written
/// `"0x0102"`). Decoding accepts digits in either case.
pub struct Hex;

impl Encoding for Hex {
    open spec fn spec_encode(bytes: Seq<u8>) -> Seq<char> {
        "0x"@ + hex_lower(bytes)
    }

    open spec fn spec_decode(text: Seq<char>) -> Result<Seq<u8>, Seq<char>> {
        hex_text_decoding(text)
    }

    fn encode(bytes: &[u8]) -> (r: String) {
        let digits = encode_hex_digits(bytes);
        proof {
            lemma_hex_round_trip(bytes@);
        }
        String::from_str("0x").concat(digits.as_str())
    }

    fn decode(text: &str) -> (r: Result<Vec<u8>, DecodeError>) {
        let b = text.as_bytes();
        if b.len() >= 2 && b[0] == 0x30 && b[1] == 0x78 {
            match decode_hex_digits(&b[2..b.len()]) {
                Ok(v) => Ok(v),
                Err(e) => Err(DecodeError { message: hex_error_text(e) }),
            }
        } else {
            let quoted = quoted_str(text);
            Err(
                DecodeError {
                    message: String::from_str("invalid value: string ").concat(
                        quoted.as_str(),
                    ).concat(", expected 0x-prefixed hex-encoded bytes"),
                },
            )
        }
    }
}

} // verus!
