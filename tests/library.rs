use serde_encoded_bytes::{
    array_from_bytes, array_from_str, check_length, decimal_string, deserialize_array,
    deserialize_slice, finish_construction, requested_shape, serialize_slice, slice_from_str,
    Base64, Base64Url, ConversionError, Encoding, Hex, Requested, Serialized, SourceShape,
};

fn text_of(s: Serialized) -> String {
    match s {
        Serialized::Text(t) => t,
        Serialized::Bytes(b) => panic!("expected text, got bytes {b:?}"),
    }
}

fn bytes_of(s: Serialized) -> Vec<u8> {
    match s {
        Serialized::Bytes(b) => b,
        Serialized::Text(t) => panic!("expected bytes, got text {t:?}"),
    }
}

fn error_message<T: std::fmt::Debug>(r: Result<T, ConversionError>) -> String {
    match r {
        Ok(v) => panic!("expected an error, got {v:?}"),
        Err(e) => e.message(),
    }
}

#[test]
fn hex_encodes_lowercase_with_prefix() {
    assert_eq!(Hex::encode(&[1, 2, 3, 4]), "0x01020304");
    assert_eq!(Hex::encode(&[0xab, 0xcd, 0xef, 0x09]), "0xabcdef09");
    assert_eq!(Hex::encode(&[]), "0x");
}

#[test]
fn hex_decodes_either_case() {
    assert_eq!(Hex::decode("0x01020304").unwrap(), vec![1, 2, 3, 4]);
    assert_eq!(Hex::decode("0xABcd").unwrap(), vec![0xab, 0xcd]);
    assert_eq!(Hex::decode("0x").unwrap(), Vec::<u8>::new());
}

#[test]
fn hex_missing_prefix() {
    assert_eq!(
        Hex::decode("01f203f4").unwrap_err().message,
        "invalid value: string \"01f203f4\", expected 0x-prefixed hex-encoded bytes"
    );
    assert_eq!(
        Hex::decode("").unwrap_err().message,
        "invalid value: string \"\", expected 0x-prefixed hex-encoded bytes"
    );
    assert_eq!(
        Hex::decode("0X01").unwrap_err().message,
        "invalid value: string \"0X01\", expected 0x-prefixed hex-encoded bytes"
    );
}

#[test]
fn hex_multi_byte_characters() {
    // Three bytes in UTF-8: no prefix, and no panic.
    assert_eq!(
        Hex::decode("\u{1D01}").unwrap_err().message,
        "invalid value: string \"\u{1D01}\", expected 0x-prefixed hex-encoded bytes"
    );
    // After the prefix, the three bytes make an odd count of digits.
    assert_eq!(
        Hex::decode("0x\u{1D01}").unwrap_err().message,
        "Odd number of digits"
    );
    // Two bytes (0xC3 0xA9): the first is reported as a character.
    assert_eq!(
        Hex::decode("0x\u{e9}").unwrap_err().message,
        "Invalid character '\u{c3}' at position 0"
    );
}

#[test]
fn hex_digit_errors() {
    assert_eq!(
        Hex::decode("0x0102030").unwrap_err().message,
        "Odd number of digits"
    );
    assert_eq!(
        Hex::decode("0x0g").unwrap_err().message,
        "Invalid character 'g' at position 1"
    );
    assert_eq!(
        Hex::decode("0x01\n2").unwrap_err().message,
        "Invalid character '\\n' at position 2"
    );
}

#[test]
fn base64_alphabets() {
    assert_eq!(Base64::encode(&[1, 0xf2, 63, 0xf4]), "AfI/9A");
    assert_eq!(Base64Url::encode(&[1, 0xf2, 63, 0xf4]), "AfI_9A");
    assert_eq!(Base64::decode("AfI/9A").unwrap(), vec![1, 0xf2, 63, 0xf4]);
    assert_eq!(Base64Url::decode("AfI_9A").unwrap(), vec![1, 0xf2, 63, 0xf4]);
    assert_eq!(Base64::encode(&[]), "");
}

#[test]
fn base64_errors() {
    assert_eq!(
        Base64::decode("AfI_9A").unwrap_err().message,
        "Invalid symbol 95, offset 3."
    );
    assert_eq!(
        Base64Url::decode("AfI/9A").unwrap_err().message,
        "Invalid symbol 47, offset 3."
    );
    assert_eq!(
        Base64::decode("AB").unwrap_err().message,
        "Invalid last symbol 66, offset 1."
    );
    assert_eq!(
        Base64::decode("AfI/9A==").unwrap_err().message,
        "Invalid padding"
    );
}

#[test]
fn round_trip_every_byte() {
    let all: Vec<u8> = (0..=255u8).collect();
    assert_eq!(Hex::decode(&Hex::encode(&all)).unwrap(), all);
    assert_eq!(Base64::decode(&Base64::encode(&all)).unwrap(), all);
    assert_eq!(Base64Url::decode(&Base64Url::encode(&all)).unwrap(), all);
}

#[test]
fn dispatch_by_format() {
    let value = [1u8, 2, 3, 4];
    assert_eq!(text_of(serialize_slice::<Hex>(&value, true)), "0x01020304");
    assert_eq!(text_of(serialize_slice::<Base64>(&value, true)), "AQIDBA");
    assert_eq!(bytes_of(serialize_slice::<Hex>(&value, false)), vec![1, 2, 3, 4]);
    assert_eq!(bytes_of(serialize_slice::<Base64>(&value, false)), vec![1, 2, 3, 4]);
    assert_eq!(bytes_of(serialize_slice::<Base64Url>(&value, false)), vec![1, 2, 3, 4]);
}

#[test]
fn requested_shape_follows_flag() {
    assert_eq!(requested_shape(true), Requested::Str);
    assert_eq!(requested_shape(false), Requested::Bytes);
}

#[test]
fn round_trip_through_dispatcher() {
    let value = [0u8, 0xff, 0x10, 7, 9];
    for human_readable in [true, false] {
        let sent = serialize_slice::<Base64Url>(&value, human_readable);
        assert_eq!(deserialize_slice::<Base64Url>(&sent).unwrap(), value.to_vec());
        assert_eq!(deserialize_array::<Base64Url>(&sent, 5).unwrap(), value.to_vec());
        let sent = serialize_slice::<Hex>(&value, human_readable);
        assert_eq!(deserialize_array::<Hex>(&sent, 5).unwrap(), value.to_vec());
    }
}

#[test]
fn length_mismatch_states_both_lengths() {
    assert_eq!(
        error_message(array_from_str::<Hex>("0x0102030405", 4)),
        "Expected a bytestring of length 4, got 5"
    );
    assert_eq!(
        error_message(array_from_bytes(&[1, 2, 3], 4)),
        "Expected a bytestring of length 4, got 3"
    );
    let sent = Serialized::Bytes(vec![0; 17]);
    assert_eq!(
        error_message(deserialize_array::<Hex>(&sent, 16)),
        "Expected a bytestring of length 16, got 17"
    );
    assert!(matches!(
        check_length(vec![1, 2], 3),
        Err(ConversionError::LengthMismatch {
            expected: 3,
            actual: 2
        })
    ));
    assert_eq!(check_length(vec![1, 2, 3], 3).unwrap(), vec![1, 2, 3]);
    assert_eq!(array_from_bytes(&[], 0).unwrap(), Vec::<u8>::new());
}

#[test]
fn decode_failure_kept_verbatim() {
    let r = array_from_str::<Hex>("01f203f4", 4);
    assert!(matches!(r, Err(ConversionError::Decode(_))));
    assert_eq!(
        error_message(r),
        "invalid value: string \"01f203f4\", expected 0x-prefixed hex-encoded bytes"
    );
    // The decode failure comes before any length check.
    assert_eq!(
        error_message(array_from_str::<Hex>("0x010", 4)),
        "Odd number of digits"
    );
    assert_eq!(
        error_message(slice_from_str::<Base64>("A")),
        "Invalid input length: 1"
    );
}

#[test]
fn construction_failure_wrapped() {
    let refused: Result<u8, String> = Err("no such value".to_string());
    assert_eq!(
        error_message(finish_construction(refused, "my::Key", SourceShape::Array { length: 32 })),
        "Failed to instantiate `my::Key` from `[u8; 32]`: no such value"
    );
    let refused: Result<u8, String> = Err("too short".to_string());
    assert_eq!(
        error_message(finish_construction(refused, "my::Digest", SourceShape::Slice { length: 3 })),
        "Failed to instantiate `my::Digest` from a byte slice of length 3: too short"
    );
    let accepted: Result<u8, String> = Ok(7);
    assert_eq!(
        finish_construction(accepted, "u8", SourceShape::Slice { length: 1 }).unwrap(),
        7
    );
}

#[test]
fn decimal_numbers() {
    assert_eq!(decimal_string(0), "0");
    assert_eq!(decimal_string(9), "9");
    assert_eq!(decimal_string(10), "10");
    assert_eq!(decimal_string(1234567890), "1234567890");
    assert_eq!(decimal_string(usize::MAX), usize::MAX.to_string());
}
