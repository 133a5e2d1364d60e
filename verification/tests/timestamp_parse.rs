//! Parsing of TSTInfo and TimeStampResp, and building of requests.

use der::asn1::OctetString;
use der::{Decode, Encode};
use const_oid::ObjectIdentifier;
use spki::AlgorithmIdentifierOwned;

use ritsp_ltv::crypto::algorithm::DigestAlgorithm;
use ritsp_ltv::der_utils::{
    encode_boolean, encode_integer_u64, encode_sequence_from_parts, encode_sequence_raw,
    encode_tlv, parse_tlv,
};
use ritsp_ltv::error::TspError;
use ritsp_ltv::oid::Oid;
use ritsp_ltv::tsp::response::{
    build_timestamp_request, digest_algorithm_identifier, generate_nonce, nonce_from_bytes,
    parse_timestamp_response,
};
use ritsp_ltv::tsp::status::PkiStatus;
use ritsp_ltv::tsp::tst_info::{
    parse_message_imprint, parse_tst_info_body, validate_tst_accuracy, validate_tst_extensions,
    validate_tst_tsa_name,
};

fn synthetic_tst_info_fields() -> Vec<Vec<u8>> {
    let algorithm = digest_algorithm_identifier(DigestAlgorithm::Sha256);
    let hash = encode_tlv(0x04, &[0xAA; 32]);
    vec![
        encode_integer_u64(1),
        ObjectIdentifier::new_unwrap("1.2.3.4").to_der().unwrap(),
        encode_sequence_from_parts(&[&algorithm, &hash]),
        encode_integer_u64(42),
        encode_tlv(0x18, b"20260303120000Z"),
    ]
}

fn synthetic_tst_info(fields: &[Vec<u8>]) -> Vec<u8> {
    encode_sequence_raw(&fields.concat())
}

#[test]
fn test_tst_info_requires_correct_required_field_tags_and_version() {
    let fields = synthetic_tst_info_fields();
    assert!(parse_tst_info_body(&synthetic_tst_info(&fields)).is_ok());
    for index in 0..fields.len() {
        let mut wrong_tag = fields.clone();
        wrong_tag[index][0] = 0x04;
        assert!(
            parse_tst_info_body(&synthetic_tst_info(&wrong_tag)).is_err(),
            "required field {index} must retain its ASN.1 type"
        );
    }
    for version in [vec![0x02, 0x01, 0x02], vec![0x02, 0x02, 0x00, 0x01]] {
        let mut invalid = fields.clone();
        invalid[0] = version;
        assert!(parse_tst_info_body(&synthetic_tst_info(&invalid)).is_err());
    }
    let mut invalid = fields;
    invalid[1] = vec![0x06, 0x01, 0x80];
    assert!(parse_tst_info_body(&synthetic_tst_info(&invalid)).is_err());
}

#[test]
fn test_tst_info_rejects_trailing_malformed_duplicate_and_unordered_fields() {
    let fields = synthetic_tst_info_fields();
    let mut trailing = synthetic_tst_info(&fields);
    trailing.extend_from_slice(&[0x05, 0x00]);
    assert!(parse_tst_info_body(&trailing).is_err());
    let nonce = encode_integer_u64(7);
    let optional_cases = [
        vec![vec![0x02, 0x02, 0x01]], // truncated nonce
        vec![nonce.clone(), nonce.clone()],
        vec![nonce, encode_boolean(true)],
        vec![vec![0x05, 0x00]],       // unknown optional field
        vec![vec![0x01, 0x01, 0x01]], // non-DER BOOLEAN
        vec![vec![0xA0, 0x00]],       // empty TSA GeneralName wrapper
        vec![vec![0xA1, 0x00]],       // empty Extensions
    ];
    for optional in optional_cases {
        let mut invalid = fields.clone();
        invalid.extend(optional);
        assert!(parse_tst_info_body(&synthetic_tst_info(&invalid)).is_err());
    }
}

#[test]
fn test_tst_info_accepts_well_formed_optional_fields() {
    let mut fields = synthetic_tst_info_fields();
    let seconds = encode_integer_u64(0);
    let millis = encode_tlv(0x80, &[1]);
    let micros = encode_tlv(0x81, &[0x03, 0xE7]); // 999
    fields.push(encode_sequence_from_parts(&[
        &seconds, &millis, &micros,
    ]));
    fields.push(encode_boolean(true));
    fields.push(encode_integer_u64(u64::MAX));
    fields.push(encode_tlv(
        0xA0,
        &encode_tlv(0x82, b"tsa.example"),
    ));
    let extension = x509_cert::ext::Extension {
        extn_id: ObjectIdentifier::new_unwrap("1.2.3.5"),
        critical: false,
        extn_value: OctetString::new([0x05, 0x00]).unwrap(),
    };
    fields.push(encode_tlv(0xA1, &extension.to_der().unwrap()));
    let info = parse_tst_info_body(&synthetic_tst_info(&fields)).unwrap();
    assert_eq!(info.nonce, Some(u64::MAX));
    assert_eq!(info.policy_oid.as_deref(), Some("1.2.3.4"));
    // Preserve the GeneralName choice omitted by x509-cert's typed decoder.
    fields[8] = encode_tlv(0xA0, &[0xA3, 0x02, 0x30, 0x00]);
    assert!(parse_tst_info_body(&synthetic_tst_info(&fields)).is_ok());
}

#[test]
fn test_tst_info_accuracy_requires_valid_order_and_fraction_bounds() {
    for body in [
        vec![0x80, 0x01, 0x00],                   // zero millis
        vec![0x81, 0x02, 0x03, 0xE8],             // 1000 micros
        vec![0x80, 0x01, 0x01, 0x80, 0x01, 0x02], // duplicate millis
        vec![0x81, 0x01, 0x01, 0x80, 0x01, 0x01], // reversed order
        vec![0x02, 0x01, 0xFF],                   // negative seconds
        vec![0x80, 0x02, 0x00],                   // truncated millis
    ] {
        let mut fields = synthetic_tst_info_fields();
        fields.push(encode_tlv(0x30, &body));
        assert!(parse_tst_info_body(&synthetic_tst_info(&fields)).is_err());
    }
}

#[test]
fn test_tst_info_extensions_rejects_duplicate_and_unrecognized_critical_oids() {
    let extension = x509_cert::ext::Extension {
        extn_id: ObjectIdentifier::new_unwrap("1.2.3.5"),
        critical: false,
        extn_value: OctetString::new([0x05, 0x00]).unwrap(),
    };
    let encoded = extension.to_der().unwrap();
    assert!(validate_tst_extensions(&encoded).is_ok());
    assert!(matches!(
        validate_tst_extensions(&[encoded.clone(), encoded].concat()),
        Err(TspError::InvalidResponse(message)) if message.message().contains("duplicate")
    ));
    let critical = x509_cert::ext::Extension {
        critical: true,
        ..extension
    };
    let mut fields = synthetic_tst_info_fields();
    fields.push(encode_tlv(0xA1, &critical.to_der().unwrap()));
    assert!(matches!(
        parse_tst_info_body(&synthetic_tst_info(&fields)),
        Err(TspError::InvalidResponse(message)) if message.message().contains("critical")
    ));
}

#[test]
fn test_message_imprint_validates_types_parameters_hash_size_and_consumption() {
    let algorithm = digest_algorithm_identifier(DigestAlgorithm::Sha256);
    let hash = encode_tlv(0x04, &[0xAA; 32]);
    let body = [algorithm.clone(), hash.clone()].concat();
    assert!(parse_message_imprint(&body).is_ok());
    let mut wrong_algorithm_tag = algorithm.clone();
    wrong_algorithm_tag[0] = 0x04;
    let mut wrong_hash_tag = hash.clone();
    wrong_hash_tag[0] = 0x02;
    let mut oid = encode_tlv(0x06, &DigestAlgorithm::Sha256.oid());
    oid[0] = 0x04;
    let wrong_oid_tag = encode_sequence_raw(&oid);
    let parameters = AlgorithmIdentifierOwned {
        oid: ObjectIdentifier::from_bytes(&DigestAlgorithm::Sha256.oid()).unwrap(),
        parameters: Some(der::Any::from_der(&[0x02, 0x01, 0x01]).unwrap()),
    }
    .to_der()
    .unwrap();
    for invalid in [
        [wrong_algorithm_tag, hash.clone()].concat(),
        [algorithm.clone(), wrong_hash_tag].concat(),
        [wrong_oid_tag, hash.clone()].concat(),
        [parameters, hash.clone()].concat(),
        [algorithm.clone(), encode_tlv(0x04, &[0xAA; 31])].concat(),
        [body, vec![0x05, 0x00]].concat(),
    ] {
        assert!(parse_message_imprint(&invalid).is_err());
    }
    // Both common AlgorithmIdentifier parameter conventions stay accepted.
    let with_null = AlgorithmIdentifierOwned {
        oid: ObjectIdentifier::from_bytes(&DigestAlgorithm::Sha256.oid()).unwrap(),
        parameters: Some(der::Any::null()),
    }
    .to_der()
    .unwrap();
    assert!(parse_message_imprint(&[with_null, hash].concat()).is_ok());
}

#[test]
fn test_build_timestamp_request_basic() {
    let hash = vec![0xAA; 32]; // SHA-256 sized
    let req =
        build_timestamp_request(DigestAlgorithm::Sha256, &hash, None, None, true).unwrap();

    // Should be a valid DER SEQUENCE
    assert_eq!(req[0], 0x30, "should start with SEQUENCE tag");

    // Parse it back
    let (tag, _body) = parse_tlv(&req).unwrap();
    assert_eq!(tag, 0x30);
}

#[test]
fn test_build_timestamp_request_with_nonce() {
    let hash = vec![0xBB; 32];
    let nonce = 12345678u64;
    let req = build_timestamp_request(DigestAlgorithm::Sha256, &hash, None, Some(nonce), true)
        .unwrap();

    let (tag, _body) = parse_tlv(&req).unwrap();
    assert_eq!(tag, 0x30);
}

#[test]
fn test_pki_status_display() {
    assert_eq!(PkiStatus::Granted.to_text(), "granted (0)");
    assert_eq!(PkiStatus::Rejection.to_text(), "rejection (2)");
    assert!(PkiStatus::Granted.is_success());
    assert!(PkiStatus::GrantedWithMods.is_success());
    assert!(!PkiStatus::Rejection.is_success());
}

#[test]
fn test_parse_timestamp_response_error_status() {
    // Build a minimal TimeStampResp with rejection status
    // PKIStatusInfo SEQUENCE { PKIStatus INTEGER 2 }
    let status_info = encode_sequence_raw(&encode_integer_u64(2));
    let resp_der = encode_sequence_raw(&status_info);

    let resp = parse_timestamp_response(&resp_der).unwrap();
    assert_eq!(resp.status, PkiStatus::Rejection);
    assert!(resp.token_der.is_none());
}

#[test]
fn test_parse_timestamp_response_accepts_status_text_and_failure_info() {
    let text = encode_sequence_from_parts(&[
        &encode_tlv(0x0C, b"unsupported algorithm"),
        &encode_tlv(0x0C, "algorithm not supported: 算法".as_bytes()),
    ]);
    // badAlg is bit 0: seven unused bits in the final octet.
    let failure = encode_tlv(0x03, &[7, 0x80]);
    let status = encode_sequence_from_parts(&[
        &encode_integer_u64(2),
        &text,
        &failure,
    ]);
    let response = encode_sequence_raw(&status);
    let parsed = parse_timestamp_response(&response).unwrap();
    assert_eq!(
        parsed.status_string.as_deref(),
        Some("unsupported algorithm")
    );
    assert_eq!(parsed.failure_info.as_deref(), Some(&[7, 0x80][..]));
    // failureInfo is also permitted without the optional statusString.
    let status =
        encode_sequence_from_parts(&[&encode_integer_u64(2), &failure]);
    assert!(parse_timestamp_response(&encode_sequence_raw(&status)).is_ok());
}

#[test]
fn test_parse_timestamp_response_rejects_outer_trailing_and_ambiguous_status_fields() {
    let text = encode_sequence_raw(&encode_tlv(0x0C, b"rejected"));
    let failure = encode_tlv(0x03, &[7, 0x80]);
    for optional in [
        vec![text.clone(), text.clone()],
        vec![failure.clone(), failure.clone()],
        vec![failure, text],
        vec![vec![0x05, 0x00]],
    ] {
        let mut status_fields = vec![encode_integer_u64(2)];
        status_fields.extend(optional);
        let status = encode_sequence_raw(&status_fields.concat());
        assert!(parse_timestamp_response(&encode_sequence_raw(&status)).is_err());
    }
    let status = encode_sequence_raw(&encode_integer_u64(2));
    let mut response = encode_sequence_raw(&status);
    response.extend_from_slice(&[0x05, 0x00]);
    assert!(matches!(
        parse_timestamp_response(&response),
        Err(TspError::InvalidResponse(message)) if message.message().contains("trailing")
    ));
}

#[test]
fn test_parse_timestamp_response_rejects_malformed_failure_info() {
    for failure_body in [
        vec![],
        vec![8],       // unused-bits count exceeds seven
        vec![1],       // unused bits without a data octet
        vec![7, 0x81], // nonzero padding bits
    ] {
        let status = encode_sequence_from_parts(&[
            &encode_integer_u64(2),
            &encode_tlv(0x03, &failure_body),
        ]);
        assert!(parse_timestamp_response(&encode_sequence_raw(&status)).is_err());
    }
}

#[test]
fn test_parse_timestamp_response_rejects_malformed_status_field() {
    // a structurally malformed element inside PKIStatusInfo must be a
    // hard error, not silently dropped. Status INTEGER 0 (granted) followed
    // by a SEQUENCE whose declared length overruns the buffer.
    let mut status_body = encode_integer_u64(0);
    status_body.extend_from_slice(&[0x30, 0x05, 0x01]); // truncated SEQUENCE
    let status_info = encode_sequence_raw(&status_body);
    let resp_der = encode_sequence_raw(&status_info);

    let err = parse_timestamp_response(&resp_der)
        .expect_err("malformed PKIStatusInfo field must be rejected");
    assert!(
        matches!(err, TspError::InvalidResponse(_)),
        "expected InvalidResponse, got {err:?}"
    );
}

fn resp_with_status_string(inner_tag: u8, inner_body: &[u8]) -> Vec<u8> {
    let status_int = encode_integer_u64(2); // rejection
    let free_text =
        encode_sequence_raw(&encode_tlv(inner_tag, inner_body));
    let mut status_body = status_int;
    status_body.extend_from_slice(&free_text);
    let status_info = encode_sequence_raw(&status_body);
    encode_sequence_raw(&status_info)
}

#[test]
fn test_parse_timestamp_response_accepts_valid_status_string() {
    // A well-formed UTF8String statusString is decoded.
    let resp_der = resp_with_status_string(0x0C, "rejected: bad request".as_bytes());
    let resp = parse_timestamp_response(&resp_der).unwrap();
    assert_eq!(resp.status, PkiStatus::Rejection);
    assert_eq!(resp.status_string.as_deref(), Some("rejected: bad request"));
}

#[test]
fn test_parse_timestamp_response_rejects_non_utf8string_status() {
    // PKIFreeText elements are UTF8String; an OCTET STRING (or any other
    // type) inside statusString must be rejected, not accepted blindly.
    let resp_der = resp_with_status_string(0x04, b"not a utf8string"); // OCTET STRING
    let err = parse_timestamp_response(&resp_der)
        .expect_err("non-UTF8String statusString must be rejected");
    assert!(
        matches!(err, TspError::InvalidResponse(ref m) if m.message().contains("UTF8String")),
        "expected UTF8String tag rejection, got {err:?}"
    );
}

#[test]
fn test_parse_timestamp_response_rejects_invalid_utf8_status() {
    // invalid UTF-8 inside a UTF8String must be rejected, not lossily
    // normalized.
    let resp_der = resp_with_status_string(0x0C, &[0xFF, 0xFE, 0xFD]);
    let err = parse_timestamp_response(&resp_der)
        .expect_err("invalid UTF-8 statusString must be rejected");
    assert!(
        matches!(err, TspError::InvalidResponse(ref m) if m.message().contains("UTF-8")),
        "expected invalid-UTF-8 rejection, got {err:?}"
    );
}

#[test]
fn test_parse_timestamp_response_rejects_malformed_trailing_status_element() {
    // PKIFreeText is SEQUENCE OF UTF8String — EVERY element
    // must be validated, not just the first. A valid first UTF8String
    // followed by a non-UTF8String element must still be rejected.
    let status_int = encode_integer_u64(2); // rejection
    let mut free_text_body = encode_tlv(0x0C, b"ok");
    free_text_body.extend_from_slice(&encode_tlv(0x04, b"bad")); // OCTET STRING
    let free_text = encode_sequence_raw(&free_text_body);
    let mut status_body = status_int;
    status_body.extend_from_slice(&free_text);
    let status_info = encode_sequence_raw(&status_body);
    let resp_der = encode_sequence_raw(&status_info);

    let err = parse_timestamp_response(&resp_der)
        .expect_err("a trailing non-UTF8String statusString element must be rejected");
    assert!(
        matches!(err, TspError::InvalidResponse(ref m) if m.message().contains("UTF8String")),
        "expected UTF8String rejection of the trailing element, got {err:?}"
    );
}

#[test]
fn test_parse_timestamp_response_rejects_empty_status_string() {
    // PKIFreeText is SEQUENCE SIZE (1..MAX) OF UTF8String.
    // A present-but-empty statusString SEQUENCE violates the size constraint
    // and must be rejected rather than silently leaving status_string None.
    let status_int = encode_integer_u64(2); // rejection
    let free_text = encode_sequence_raw(&[]); // empty SEQUENCE
    let mut status_body = status_int;
    status_body.extend_from_slice(&free_text);
    let status_info = encode_sequence_raw(&status_body);
    let resp_der = encode_sequence_raw(&status_info);

    let err = parse_timestamp_response(&resp_der)
        .expect_err("an empty statusString SEQUENCE must be rejected");
    assert!(
        matches!(err, TspError::InvalidResponse(ref m) if m.message().contains("empty")),
        "expected empty-PKIFreeText rejection, got {err:?}"
    );
}

#[test]
fn test_parse_timestamp_response_rejects_trailing_bytes_after_token() {
    // the TimeStampToken must consume all remaining bytes of
    // the TimeStampResp; trailing bytes after it are malformed.
    let status_info = encode_sequence_raw(&encode_integer_u64(0));
    let token = encode_sequence_raw(&encode_integer_u64(1)); // dummy SEQUENCE
    let mut body = status_info;
    body.extend_from_slice(&token);
    body.extend_from_slice(&encode_integer_u64(9)); // trailing junk
    let resp_der = encode_sequence_raw(&body);

    let err = parse_timestamp_response(&resp_der)
        .expect_err("trailing bytes after the TimeStampToken must be rejected");
    assert!(
        matches!(err, TspError::InvalidResponse(ref m) if m.message().contains("trailing")),
        "expected trailing-data rejection, got {err:?}"
    );
}

#[test]
fn test_parse_timestamp_response_rejects_non_sequence_token() {
    // a non-SEQUENCE where the optional TimeStampToken is expected is
    // malformed and must be rejected rather than yielding token_der = None.
    let status_info = encode_sequence_raw(&encode_integer_u64(0));
    let mut body = status_info;
    // Append a bogus token: an INTEGER instead of a ContentInfo SEQUENCE.
    body.extend_from_slice(&encode_integer_u64(7));
    let resp_der = encode_sequence_raw(&body);

    let err = parse_timestamp_response(&resp_der)
        .expect_err("non-SEQUENCE TimeStampToken must be rejected");
    assert!(
        matches!(err, TspError::InvalidResponse(_)),
        "expected InvalidResponse, got {err:?}"
    );
}

#[test]
fn a_token_follows_only_a_success() {
    let response = |status: u64| {
        encode_sequence_from_parts(&[
            &encode_sequence_raw(&encode_integer_u64(status)),
            &encode_sequence_raw(&encode_integer_u64(1)),
        ])
    };
    for status in 0..2 {
        let parsed = parse_timestamp_response(&response(status)).unwrap();
        assert_eq!(parsed.token_der, Some(vec![0x30, 0x03, 0x02, 0x01, 0x01]));
    }
    for status in 2..7 {
        assert!(matches!(
            parse_timestamp_response(&response(status)),
            Err(TspError::InvalidResponse(fault)) if fault.message().contains("failure status")
        ));
    }
}

#[test]
fn an_imprint_is_read_back() {
    for (algorithm, size) in [
        (DigestAlgorithm::Sha256, 32),
        (DigestAlgorithm::Sha384, 48),
        (DigestAlgorithm::Sha512, 64),
        (DigestAlgorithm::Sha3_256, 32),
        (DigestAlgorithm::Sha3_384, 48),
        (DigestAlgorithm::Sha3_512, 64),
    ] {
        let hash = vec![0x5A; size];
        let body =
            [digest_algorithm_identifier(algorithm), encode_tlv(0x04, &hash)].concat();
        assert_eq!(parse_message_imprint(&body).unwrap(), (algorithm, hash));
    }
}

#[test]
fn algorithm_identifiers_hold_at_most_one_parameter() {
    let oid = encode_tlv(0x06, &[0x60, 0x86, 0x48, 0x01, 0x65, 0x03, 0x04, 0x02, 0x01]);
    let hash = encode_tlv(0x04, &[0; 32]);
    for (parameters, accepted) in [
        (vec![], true),
        (vec![0x05, 0x00], true),
        (vec![0x05, 0x00, 0x05, 0x00], false),
        (vec![0x05, 0x81, 0x00], false),
        (vec![0x05], false),
        (vec![0x1F, 0x00], false),
        (vec![0x02, 0x01, 0x00], false),
    ] {
        let body =
            [encode_sequence_raw(&[oid.clone(), parameters].concat()), hash.clone()].concat();
        assert_eq!(parse_message_imprint(&body).is_ok(), accepted);
    }
    // The identifier must come first.
    let body = [encode_sequence_raw(&[0x05, 0x00]), hash].concat();
    assert!(parse_message_imprint(&body).is_err());
}

#[test]
fn extensions_may_leave_out_a_false_flag() {
    let oid = encode_tlv(0x06, &[0x2A, 0x03, 0x04]);
    let value = encode_tlv(0x04, &[0x05, 0x00]);
    for (flag, accepted) in [
        (vec![], true),
        (vec![0x01, 0x01, 0x00], true),
        // Critical extensions are not supported.
        (vec![0x01, 0x01, 0xFF], false),
        (vec![0x01, 0x01, 0x01], false),
        (vec![0x01, 0x00], false),
    ] {
        let extension = encode_sequence_from_parts(&[&oid, &flag, &value]);
        assert_eq!(validate_tst_extensions(&extension).is_ok(), accepted, "{flag:?}");
    }
    let longer = encode_sequence_from_parts(&[&oid, &value, &[0x05, 0x00]]);
    assert!(validate_tst_extensions(&longer).is_err());
    assert!(validate_tst_extensions(&encode_sequence_raw(&oid)).is_err());
}

#[test]
fn object_identifiers_are_whole_arcs() {
    let text = |body: &[u8]| Oid::from_bytes(body).map(|oid| oid.to_text());
    assert_eq!(text(&[0x2A, 0x03, 0x04]).unwrap(), "1.2.3.4");
    assert_eq!(text(&[0x2A, 0x86, 0x48, 0x86, 0xF7, 0x0D]).unwrap(), "1.2.840.113549");
    assert_eq!(text(&[0x00, 0x00, 0x00]).unwrap(), "0.0.0.0");
    // The first octet holds two arcs, the first of at most two.
    assert_eq!(text(&[119, 0x01, 0x02]).unwrap(), "2.39.1.2");
    assert!(text(&[120, 0x01, 0x02]).is_none());
    // Arcs have at most 32 bits and must end.
    assert_eq!(text(&[0x2A, 0x8F, 0x80, 0x80, 0x00]).unwrap(), "1.2.31457280");
    assert_eq!(text(&[0x2A, 0x81, 0x80, 0x80, 0x80, 0x0F]).unwrap(), "1.2.268435471");
    assert_eq!(text(&[0x2A, 0xFF, 0xFF, 0xFF, 0xFF, 0x0F]).unwrap(), "1.2.4294967183");
    assert!(text(&[0x2A, 0x81, 0x80, 0x80, 0x80, 0x10]).is_none());
    assert!(text(&[0x2A, 0x81, 0x80, 0x80, 0x80, 0x80]).is_none());
    assert!(text(&[0x2A, 0x03, 0x81]).is_none());
    // Three to 39 octets.
    assert!(text(&[]).is_none());
    assert!(text(&[0x2A, 0x03]).is_none());
    assert!(text(&[0x01; 39]).is_some());
    assert!(text(&[0x01; 40]).is_none());
}

#[test]
fn token_test_generate_nonce() {
    let n1 = generate_nonce().unwrap();
    let n2 = generate_nonce().unwrap();
    // They should differ (with extremely high probability)
    assert_ne!(n1, n2, "nonces should be unique");
}

#[test]
fn requests_have_their_exact_encoding() {
    let hash = [0x11; 32];
    let policy = Oid::from_bytes(&[0x2A, 0x03, 0x04]).unwrap();
    let request =
        build_timestamp_request(DigestAlgorithm::Sha256, &hash, Some(&policy), Some(200), true)
            .unwrap();
    let imprint = encode_sequence_from_parts(&[
        &digest_algorithm_identifier(DigestAlgorithm::Sha256),
        &encode_tlv(0x04, &hash),
    ]);
    let expected = encode_sequence_from_parts(&[
        &[0x02, 0x01, 0x01],
        &imprint,
        &[0x06, 0x03, 0x2A, 0x03, 0x04],
        &[0x02, 0x02, 0x00, 0xC8],
        &[0x01, 0x01, 0xFF],
    ]);
    assert_eq!(request, expected);
    // Without certificates the flag is left out.
    let plain =
        build_timestamp_request(DigestAlgorithm::Sha256, &hash, None, None, false).unwrap();
    assert_eq!(plain, encode_sequence_from_parts(&[&[0x02, 0x01, 0x01], &imprint]));
}

#[test]
fn a_nonce_is_the_number_of_its_bytes() {
    let bytes = [1, 2, 3, 4, 5, 6, 7, 8];
    assert_eq!(nonce_from_bytes(&bytes), u64::from_ne_bytes(bytes));
    assert!([0x0102_0304_0506_0708, 0x0807_0605_0403_0201].contains(&nonce_from_bytes(&bytes)));
    assert_eq!(nonce_from_bytes(&[0xFF; 8]), u64::MAX);
}

#[test]
fn statuses_are_told_apart_by_their_numbers() {
    for (code, status) in [
        (0, PkiStatus::Granted),
        (1, PkiStatus::GrantedWithMods),
        (2, PkiStatus::Rejection),
        (3, PkiStatus::Waiting),
        (4, PkiStatus::RevocationWarning),
        (5, PkiStatus::RevocationNotification),
        (9, PkiStatus::Unknown(9)),
    ] {
        assert_eq!(PkiStatus::from_u64(code), status);
        assert_eq!(status.is_success(), code < 2);
    }
}

#[test]
fn accuracy_and_name_stand_alone() {
    assert!(validate_tst_accuracy(&[0x02, 0x01, 0x05, 0x80, 0x01, 0x01]).is_ok());
    assert!(validate_tst_accuracy(&[0x02, 0x01, 0x05, 0x05, 0x00]).is_err());
    assert!(validate_tst_tsa_name(&[0x82, 0x01, 0x61]).is_ok());
    assert!(validate_tst_tsa_name(&[]).is_err());
}

#[test]
fn errors_have_their_texts() {
    let error = parse_timestamp_response(&[0x30, 0x05, 0x02]).unwrap_err();
    assert!(error.message().starts_with("invalid timestamp response: "));
    assert_eq!(
        TspError::TsaError { status: PkiStatus::Rejection, message: Some("no".to_string()) }.message(),
        "TSA error: status=rejection (2), message=no"
    );
    assert_eq!(
        TspError::TsaError { status: PkiStatus::Waiting, message: None }.message(),
        "TSA error: status=waiting (3)"
    );
}
