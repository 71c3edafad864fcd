//! The dispatcher: which representation a byte sequence takes, and how the
//! string or byte sequence that a format hands back becomes the bytes of a
//! target value, or a diagnostic.

use vstd::prelude::*;
use vstd::slice::slice_to_vec;

use crate::encoding::{DecodeError, Encoding};
use crate::text::{decimal, decimal_string};

verus! {

/// What a format is handed for a byte sequence.
#[derive(Debug)]
pub enum Serialized {
    /// A string value, in a human-readable format.
    Text(String),
    /// The format's own byte-sequence value, in a binary format.
    Bytes(Vec<u8>),
}

/// The value of a [`Serialized`], as the contracts speak of it.
pub enum SerializedView {
    Text(Seq<char>),
    Bytes(Seq<u8>),
}

impl View for Serialized {
    type V = SerializedView;

    open spec fn view(&self) -> SerializedView {
        match self {
            Serialized::Text(t) => SerializedView::Text(t@),
            Serialized::Bytes(b) => SerializedView::Bytes(b@),
        }
    }
}

/// The representation of `bytes`: the strategy's text in a human-readable
/// format, the bytes themselves in a binary one.
pub open spec fn serialization<Enc: Encoding>(bytes: Seq<u8>, human_readable: bool) -> SerializedView {
    if human_readable {
        SerializedView::Text(Enc::spec_encode(bytes))
    } else {
        SerializedView::Bytes(bytes)
    }
}

/// `sent` is the representation of `bytes`, and if it is a text, it decodes
/// back to `bytes`.
pub open spec fn serialized_as<Enc: Encoding>(
    bytes: Seq<u8>,
    human_readable: bool,
    sent: SerializedView,
) -> bool {
    &&& sent == serialization::<Enc>(bytes, human_readable)
    &&& sent matches SerializedView::Text(t) ==> Enc::spec_decode(t) == Ok::<Seq<u8>, Seq<char>>(
        bytes,
    )
}

/// Chooses the representation of `value` by the format's human-readable
/// flag. (No Rust slice holds more than `isize::MAX` bytes.)
pub fn serialize_slice<Enc: Encoding>(value: &[u8], human_readable: bool) -> (r: Serialized)
    requires
        value@.len() <= isize::MAX,
    ensures
        serialized_as::<Enc>(value@, human_readable, r@),
{
    if human_readable {
        Serialized::Text(Enc::encode(value))
    } else {
        Serialized::Bytes(slice_to_vec(value))
    }
}

/// The byte sequence that a target type's constructor was handed.
#[derive(Debug, Clone, Copy, PartialEq, Eq)]
pub enum SourceShape {
    /// An array of `length` bytes.
    Array { length: usize },
    /// A slice of `length` bytes.
    Slice { length: usize },
}

/// Why the string or byte sequence from a format gave no value.
#[derive(Debug)]
pub enum ConversionError {
    /// The strategy could not decode the text; its diagnostic is kept as is.
    Decode(DecodeError),
    /// A fixed-size target was offered a candidate of another length.
    LengthMismatch { expected: usize, actual: usize },
    /// The target type refused well-formed bytes of the right length.
    Construction { target: String, source: SourceShape, message: String },
}

/// The value of a [`ConversionError`], as the contracts speak of it.
pub enum ConversionErrorView {
    Decode(Seq<char>),
    LengthMismatch { expected: nat, actual: nat },
    Construction { target: Seq<char>, source: SourceShape, message: Seq<char> },
}

impl View for ConversionError {
    type V = ConversionErrorView;

    open spec fn view(&self) -> ConversionErrorView {
        match self {
            ConversionError::Decode(d) => ConversionErrorView::Decode(d.message@),
            ConversionError::LengthMismatch { expected, actual } => {
                ConversionErrorView::LengthMismatch {
                    expected: *expected as nat,
                    actual: *actual as nat,
                }
            },
            ConversionError::Construction { target, source, message } => {
                ConversionErrorView::Construction {
                    target: target@,
                    source: *source,
                    message: message@,
                }
            },
        }
    }
}

/// The diagnostic that a host framework reports for an error.
pub open spec fn error_message(e: ConversionErrorView) -> Seq<char> {
    match e {
        ConversionErrorView::Decode(m) => m,
        ConversionErrorView::LengthMismatch { expected, actual } => "Expected a bytestring of length "@
            + decimal(expected) + ", got "@ + decimal(actual),
        ConversionErrorView::Construction { target, source, message } => match source {
            SourceShape::Array { length } => "Failed to instantiate `"@ + target
                + "` from `[u8; "@ + decimal(length as nat) + "]`: "@ + message,
            SourceShape::Slice { length } => "Failed to instantiate `"@ + target
                + "` from a byte slice of length "@ + decimal(length as nat) + ": "@ + message,
        },
    }
}

impl ConversionError {
    /// The diagnostic for this error.
    pub fn message(&self) -> (r: String)
        ensures
            r@ == error_message(self@),
    {
        match self {
            ConversionError::Decode(d) => d.message.clone(),
            ConversionError::LengthMismatch { expected, actual } => {
                let e = decimal_string(*expected);
                let a = decimal_string(*actual);
                String::from_str("Expected a bytestring of length ").concat(e.as_str()).concat(
                    ", got ",
                ).concat(a.as_str())
            },
            ConversionError::Construction { target, source, message } => {
                let head = String::from_str("Failed to instantiate `").concat(target.as_str());
                match source {
                    SourceShape::Array { length } => {
                        let n = decimal_string(*length);
                        head.concat("` from `[u8; ").concat(n.as_str()).concat("]`: ").concat(
                            message.as_str(),
                        )
                    },
                    SourceShape::Slice { length } => {
                        let n = decimal_string(*length);
                        head.concat("` from a byte slice of length ").concat(n.as_str()).concat(
                            ": ",
                        ).concat(message.as_str())
                    },
                }
            },
        }
    }
}

/// What a call that yields candidate bytes came to.
pub open spec fn outcome(r: Result<Vec<u8>, ConversionError>) -> Result<Seq<u8>, ConversionErrorView> {
    match r {
        Ok(v) => Ok(v@),
        Err(e) => Err(e@),
    }
}

/// The candidate bytes for a string from the format: what the strategy
/// decodes it to, or its diagnostic unchanged.
pub open spec fn decoded_candidate<Enc: Encoding>(text: Seq<char>) -> Result<
    Seq<u8>,
    ConversionErrorView,
> {
    match Enc::spec_decode(text) {
        Ok(b) => Ok(b),
        Err(m) => Err(ConversionErrorView::Decode(m)),
    }
}

/// The candidate bytes for whatever the format handed back.
pub open spec fn candidate_of<Enc: Encoding>(sent: SerializedView) -> Result<Seq<u8>, ConversionErrorView> {
    match sent {
        SerializedView::Text(t) => decoded_candidate::<Enc>(t),
        SerializedView::Bytes(b) => Ok(b),
    }
}

/// A fixed-size target of `length` bytes takes a candidate of that length
/// only; an earlier failure stands.
pub open spec fn fixed_length(
    candidate: Result<Seq<u8>, ConversionErrorView>,
    length: nat,
) -> Result<Seq<u8>, ConversionErrorView> {
    match candidate {
        Ok(b) => if b.len() == length {
            Ok(b)
        } else {
            Err(ConversionErrorView::LengthMismatch { expected: length, actual: b.len() })
        },
        Err(e) => Err(e),
    }
}

/// The candidate bytes for a string, for a target of any length.
pub fn slice_from_str<Enc: Encoding>(v: &str) -> (r: Result<Vec<u8>, ConversionError>)
    ensures
        outcome(r) == decoded_candidate::<Enc>(v@),
{
    match Enc::decode(v) {
        Ok(bytes) => Ok(bytes),
        Err(e) => Err(ConversionError::Decode(e)),
    }
}

/// Keeps `bytes` only if there are exactly `length` of them.
pub fn check_length(bytes: Vec<u8>, length: usize) -> (r: Result<Vec<u8>, ConversionError>)
    ensures
        outcome(r) == fixed_length(Ok(bytes@), length as nat),
{
    if bytes.len() == length {
        Ok(bytes)
    } else {
        Err(ConversionError::LengthMismatch { expected: length, actual: bytes.len() })
    }
}

/// The candidate bytes for a string, for a target of exactly `length` bytes.
pub fn array_from_str<Enc: Encoding>(v: &str, length: usize) -> (r: Result<
    Vec<u8>,
    ConversionError,
>)
    ensures
        outcome(r) == fixed_length(decoded_candidate::<Enc>(v@), length as nat),
{
    match slice_from_str::<Enc>(v) {
        Ok(bytes) => check_length(bytes, length),
        Err(e) => Err(e),
    }
}

/// The candidate bytes for a byte sequence, for a target of exactly
/// `length` bytes.
pub fn array_from_bytes(v: &[u8], length: usize) -> (r: Result<Vec<u8>, ConversionError>)
    ensures
        outcome(r) == fixed_length(Ok(v@), length as nat),
{
    check_length(slice_to_vec(v), length)
}

/// Which value a deserializer is asked for: a string in a human-readable
/// format, a byte sequence in a binary one. The format may hand back the
/// other, so both are handled.
#[derive(Debug, Clone, Copy, PartialEq, Eq)]
pub enum Requested {
    Str,
    Bytes,
}

/// Chooses what to ask the format for, by its human-readable flag.
pub fn requested_shape(human_readable: bool) -> (r: Requested)
    ensures
        r == (if human_readable {
            Requested::Str
        } else {
            Requested::Bytes
        }),
{
    if human_readable {
        Requested::Str
    } else {
        Requested::Bytes
    }
}

/// The candidate bytes for what the format handed back, for a target of
/// any length.
pub fn deserialize_slice<Enc: Encoding>(received: &Serialized) -> (r: Result<
    Vec<u8>,
    ConversionError,
>)
    ensures
        outcome(r) == candidate_of::<Enc>(received@),
{
    match received {
        Serialized::Text(t) => slice_from_str::<Enc>(t.as_str()),
        Serialized::Bytes(b) => Ok(b.clone()),
    }
}

/// The candidate bytes for what the format handed back, for a target of
/// exactly `length` bytes.
pub fn deserialize_array<Enc: Encoding>(received: &Serialized, length: usize) -> (r: Result<
    Vec<u8>,
    ConversionError,
>)
    ensures
        outcome(r) == fixed_length(candidate_of::<Enc>(received@), length as nat),
{
    match received {
        Serialized::Text(t) => array_from_str::<Enc>(t.as_str(), length),
        Serialized::Bytes(b) => array_from_bytes(b.as_slice(), length),
    }
}

/// Passes on what the target type's constructor returned for a `source` of
/// bytes, turning its refusal into an error that names the type.
pub fn finish_construction<T>(
    constructed: Result<T, String>,
    target: &str,
    source: SourceShape,
) -> (r: Result<T, ConversionError>)
    ensures
        constructed matches Ok(t) ==> r matches Ok(u) && u == t,
        constructed matches Err(m) ==> r matches Err(e) && e@ == (
        ConversionErrorView::Construction { target: target@, source, message: m@ }),
{
    match constructed {
        Ok(t) => Ok(t),
        Err(message) => Err(
            ConversionError::Construction {
                target: String::from_str(target),
                source,
                message,
            },
        ),
    }
}

/// Whether `part` occurs in `whole` as a contiguous run.
pub open spec fn occurs_in(part: Seq<char>, whole: Seq<char>) -> bool {
    exists|i: int|
        0 <= i && i + part.len() <= whole.len() && #[trigger] whole.subrange(i, i + part.len())
            == part
}

/// Whatever `serialize_slice` hands the format decodes back to the same
/// bytes, whether the format returns it as a string or as a byte sequence,
/// and for a target of any length as for one of exactly that length.
pub proof fn lemma_round_trip<Enc: Encoding>(
    bytes: Seq<u8>,
    human_readable: bool,
    sent: SerializedView,
)
    requires
        serialized_as::<Enc>(bytes, human_readable, sent),
    ensures
        candidate_of::<Enc>(sent) == Ok::<Seq<u8>, ConversionErrorView>(bytes),
        fixed_length(candidate_of::<Enc>(sent), bytes.len()) == Ok::<Seq<u8>, ConversionErrorView>(
            bytes,
        ),
{
}

/// For one and the same value, a human-readable format receives the
/// strategy's text and a binary format the raw bytes.
pub proof fn lemma_dispatch<Enc: Encoding>(bytes: Seq<u8>)
    ensures
        serialization::<Enc>(bytes, true) == SerializedView::Text(Enc::spec_encode(bytes)),
        serialization::<Enc>(bytes, false) == SerializedView::Bytes(bytes),
{
}

/// A candidate whose length differs from the target's fails with a length
/// mismatch that states both lengths; nothing is constructed from it.
pub proof fn lemma_length_enforced(candidate: Seq<u8>, length: nat)
    requires
        candidate.len() != length,
    ensures
        fixed_length(Ok(candidate), length) == Err::<Seq<u8>, ConversionErrorView>(
            ConversionErrorView::LengthMismatch { expected: length, actual: candidate.len() },
        ),
        error_message(ConversionErrorView::LengthMismatch { expected: length, actual: candidate.len() })
            == "Expected a bytestring of length "@ + decimal(length) + ", got "@ + decimal(
            candidate.len(),
        ),
{
}

/// A text that the strategy cannot decode fails with the strategy's own
/// diagnostic, unchanged, for targets of any length.
pub proof fn lemma_decode_failure_kept<Enc: Encoding>(text: Seq<char>, length: nat)
    requires
        Enc::spec_decode(text) is Err,
    ensures
        decoded_candidate::<Enc>(text) == Err::<Seq<u8>, ConversionErrorView>(
            ConversionErrorView::Decode(Enc::spec_decode(text)->Err_0),
        ),
        fixed_length(decoded_candidate::<Enc>(text), length) == decoded_candidate::<Enc>(text),
        error_message(ConversionErrorView::Decode(Enc::spec_decode(text)->Err_0))
            == Enc::spec_decode(text)->Err_0,
{
}

/// The diagnostic for a refused construction names the target type and the
/// number of bytes, and ends with the constructor's own message.
pub proof fn lemma_construction_message(target: Seq<char>, source: SourceShape, message: Seq<char>)
    ensures
        occurs_in(
            target,
            error_message(ConversionErrorView::Construction { target, source, message }),
        ),
        occurs_in(
            decimal(
                match source {
                    SourceShape::Array { length } => length as nat,
                    SourceShape::Slice { length } => length as nat,
                },
            ),
            error_message(ConversionErrorView::Construction { target, source, message }),
        ),
        message.is_suffix_of(
            error_message(ConversionErrorView::Construction { target, source, message }),
        ),
{
    let m = error_message(ConversionErrorView::Construction { target, source, message });
    let head = "Failed to instantiate `"@;
    let (middle, n) = match source {
        SourceShape::Array { length } => ("` from `[u8; "@, length as nat),
        SourceShape::Slice { length } => ("` from a byte slice of length "@, length as nat),
    };
    let tail = match source {
        SourceShape::Array { .. } => "]`: "@,
        SourceShape::Slice { .. } => ": "@,
    };
    let d = decimal(n);
    assert(m =~= head + target + middle + d + tail + message);
    let i = head.len() as int;
    assert(m.subrange(i, i + target.len()) =~= target);
    let j = (head.len() + target.len() + middle.len()) as int;
    assert(m.subrange(j, j + d.len()) =~= d);
    let k = m.len() - message.len();
    assert(m.subrange(k, m.len() as int) =~= message);
}

} // verus!
