//! DER primitives.

use ritsp_ltv::der_utils::{
    encode_boolean, encode_der_length, encode_integer_u64, encode_sequence_from_parts,
    encode_sequence_raw, encode_tlv, find_tagged_value, integer_bodies_equal, parse_der_length,
    parse_integer_body, parse_tlv, parse_tlv_with_rest, DerError,
};

#[test]
fn test_encode_integer_u64() {
    // Encode 1
    let encoded = encode_integer_u64(1);
    assert_eq!(encoded, vec![0x02, 0x01, 0x01]);

    // Encode 128 (needs padding because high bit set)
    let encoded = encode_integer_u64(128);
    assert_eq!(encoded, vec![0x02, 0x02, 0x00, 0x80]);

    // Encode 0
    let encoded = encode_integer_u64(0);
    // Should be 0x02 0x01 0x00
    assert_eq!(encoded, vec![0x02, 0x01, 0x00]);
}

#[test]
fn test_der_length_roundtrip() {
    for len in [0, 1, 127, 128, 255, 256, 65535, 65536] {
        let mut buf = Vec::new();
        encode_der_length(&mut buf, len);
        let (parsed_len, consumed) = parse_der_length(&buf).unwrap();
        assert_eq!(parsed_len, len, "length roundtrip failed for {len}");
        assert_eq!(consumed, buf.len());
    }
}

#[test]
fn lengths_are_encoded_in_the_short_or_long_form() {
    for (len, expected) in [
        (0usize, vec![0x00]),
        (127, vec![0x7F]),
        (128, vec![0x81, 0x80]),
        (256, vec![0x82, 0x01, 0x00]),
        (65536, vec![0x83, 0x01, 0x00, 0x00]),
    ] {
        let mut buf = Vec::new();
        encode_der_length(&mut buf, len);
        assert_eq!(buf, expected);
    }
}

#[test]
fn bad_lengths_are_told_apart() {
    assert!(matches!(parse_der_length(&[]), Err(DerError::Truncated)));
    assert!(matches!(parse_der_length(&[0x82, 0x01]), Err(DerError::Truncated)));
    assert!(matches!(parse_der_length(&[0x80]), Err(DerError::IndefiniteLength)));
    assert!(matches!(
        parse_der_length(&[0x85, 0x01, 0x00, 0x00, 0x00, 0x00]),
        Err(DerError::LengthTooLarge)
    ));
    assert!(!DerError::Truncated.text().is_empty());
}

#[test]
fn an_element_is_read_back_with_what_follows_it() {
    let mut input = encode_tlv(0x04, &[1, 2, 3]);
    input.extend_from_slice(&[9, 9]);
    let (tag, body, rest) = parse_tlv_with_rest(&input).unwrap();
    assert_eq!((tag, body, rest), (0x04, &[1u8, 2, 3][..], &[9u8, 9][..]));
    let (tag, body) = parse_tlv(&input).unwrap();
    assert_eq!((tag, body), (0x04, vec![1, 2, 3]));
    assert!(parse_tlv(&[0x04, 0x03, 0x01]).is_err());
}

#[test]
fn sequences_and_booleans_have_their_encodings() {
    assert_eq!(encode_sequence_raw(&[5, 0]), vec![0x30, 2, 5, 0]);
    assert_eq!(
        encode_sequence_from_parts(&[&[5, 0], &[1, 1, 0xFF]]),
        vec![0x30, 5, 5, 0, 1, 1, 0xFF]
    );
    assert_eq!(encode_boolean(true), vec![1, 1, 0xFF]);
    assert_eq!(encode_boolean(false), vec![1, 1, 0]);
    assert_eq!(
        encode_integer_u64(u64::MAX),
        vec![0x02, 0x09, 0x00, 0xFF, 0xFF, 0xFF, 0xFF, 0xFF, 0xFF, 0xFF, 0xFF]
    );
}

#[test]
fn integers_compare_by_value() {
    assert!(integer_bodies_equal(&[0, 0x80], &[0x80]));
    assert!(integer_bodies_equal(&[0, 0, 7], &[7]));
    assert!(!integer_bodies_equal(&[7], &[7, 0]));
    assert_eq!(parse_integer_body(&[0, 0, 0x80, 1]), vec![0x80, 1]);
}

#[test]
fn a_tagged_value_is_found_among_siblings() {
    let mut input = encode_integer_u64(1);
    input.extend_from_slice(&encode_tlv(0x04, &[8]));
    assert_eq!(find_tagged_value(&input, 0x04), Some(&[8u8][..]));
    assert_eq!(find_tagged_value(&input, 0x05), None);
}
