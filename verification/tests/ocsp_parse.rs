//! OCSP pieces that need no signature.

use ritsp_ltv::crypto::algorithm::OID_SHA1;
use ritsp_ltv::der_utils::{encode_sequence_raw, encode_tlv};
use ritsp_ltv::error::LtvError;
use ritsp_ltv::ltv::ocsp::check::{
    find_matching_response, validate_nonce, validate_response_freshness, OcspFreshness,
};
use ritsp_ltv::ltv::ocsp::fetch::{validate_body, BoundedBody, MAX_BODY_SIZE};
use ritsp_ltv::ltv::ocsp::request::{
    build_sha1_algorithm_identifier, generate_nonce, sha1_hash, NONCE_SIZE,
};
use ritsp_ltv::ltv::ocsp::response::{
    parse_ocsp_response, parse_revoked_info, validate_ocsp_response_status, CertStatus,
    SingleResponse,
};
use ritsp_ltv::ltv::status::{ocsp_response_status_name, RevocationReason};
use ritsp_ltv::time::{parse_generalized_time, UtcTime};

/// 2026-06-01T12:00:00Z.
const NOON: i64 = 1_780_315_200;

fn time(seconds: i64) -> UtcTime {
    UtcTime { seconds, nanos: 0 }
}

fn answer(hash_algorithm_oid: &[u8], serial_number: &[u8], next_update: Option<UtcTime>) -> SingleResponse {
    SingleResponse {
        hash_algorithm_oid: hash_algorithm_oid.to_vec(),
        issuer_name_hash: vec![1; 20],
        issuer_key_hash: vec![2; 20],
        serial_number: serial_number.to_vec(),
        cert_status: CertStatus::Good,
        this_update: time(NOON),
        next_update,
    }
}

#[test]
fn test_sha1_hash() {
    let hash = sha1_hash(b"test").unwrap();
    assert_eq!(hash.len(), 20); // SHA-1 is 20 bytes
    assert_eq!(
        hash,
        [
            0xA9, 0x4A, 0x8F, 0xE5, 0xCC, 0xB1, 0x9B, 0xA6, 0x1C, 0x4C, 0x08, 0x73, 0xD3, 0x91,
            0xE9, 0x87, 0x98, 0x2F, 0xBB, 0xD3,
        ]
    );
}

#[test]
fn matching_cert_id_is_bound_to_the_declared_hash_algorithm() {
    let find = |oid: &[u8], serial: &[u8]| {
        find_matching_response(&[answer(oid, &[3], None)], &[1; 20], &[2; 20], serial)
            .map(|found| found.is_some())
    };
    assert!(find(&OID_SHA1, &[3]).unwrap());

    let sha256 = [0x60, 0x86, 0x48, 0x01, 0x65, 0x03, 0x04, 0x02, 0x01];
    let error = find(&sha256, &[3]).unwrap_err();
    assert!(error.message().contains("unsupported hash algorithm"));
    // Unrelated responses are not interpreted or used as evidence for ours.
    assert!(!find(&sha256, &[4]).unwrap());
}

#[test]
fn the_first_matching_answer_is_taken() {
    let list = [
        answer(&OID_SHA1, &[9], None),
        answer(&OID_SHA1, &[0, 3], Some(time(NOON + 1))),
        answer(&OID_SHA1, &[3], Some(time(NOON + 2))),
    ];
    let found = find_matching_response(&list, &[1; 20], &[2; 20], &[3]).unwrap().unwrap();
    assert_eq!(found.next_update, Some(time(NOON + 1)));
    assert!(find_matching_response(&list, &[7; 20], &[2; 20], &[3]).unwrap().is_none());
    assert!(find_matching_response(&list, &[1; 20], &[7; 20], &[3]).unwrap().is_none());
}

#[test]
fn test_build_sha1_algorithm_identifier() {
    let alg_id = build_sha1_algorithm_identifier();
    assert_eq!(alg_id[0], 0x30); // SEQUENCE
    assert_eq!(alg_id, vec![0x30, 9, 6, 5, 0x2B, 0x0E, 0x03, 0x02, 0x1A, 5, 0]);
}

#[test]
fn ocsp_test_generate_nonce() {
    let nonce1 = generate_nonce().unwrap();
    assert_eq!(nonce1.len(), NONCE_SIZE);
    let nonce2 = generate_nonce().unwrap();
    assert_eq!(nonce2.len(), NONCE_SIZE);
}

#[test]
fn test_validate_nonce_direct_match() {
    let nonce = b"test-nonce-12345678901234567890";
    assert!(validate_nonce(nonce, nonce).is_ok());
}

#[test]
fn test_validate_nonce_der_wrapped() {
    let nonce = b"test-nonce-data-here";
    let wrapped = encode_tlv(0x04, nonce);
    // Response has DER-wrapped nonce, request has raw nonce
    assert!(validate_nonce(nonce, &wrapped).is_ok());
}

#[test]
fn test_validate_nonce_mismatch() {
    let nonce1 = b"nonce-one-aaaaaaaaaaaaaaaaaaa";
    let nonce2 = b"nonce-two-bbbbbbbbbbbbbbbbbbb";
    assert!(validate_nonce(nonce1, nonce2).is_err());
}

#[test]
fn both_ways_to_echo_a_nonce_are_accepted() {
    let sent = b"nonce";
    assert!(validate_nonce(sent, &encode_tlv(0x04, sent)).is_ok());
    assert!(validate_nonce(sent, sent).is_ok());
    // What a nonce that is itself an OCTET STRING wraps does not echo it.
    let nested = encode_tlv(0x04, sent);
    assert!(validate_nonce(&nested, sent).is_err());
}

#[test]
fn an_octet_string_with_something_after_it_echoes_nothing() {
    let mut longer = encode_tlv(0x04, b"nonce");
    longer.push(0);
    assert!(validate_nonce(b"nonce", &longer).is_err());
    assert!(validate_nonce(&longer, &longer).is_ok());
}

#[test]
fn test_validate_response_freshness_no_next_update_max_age() {
    // With nextUpdate absent, the response is fresh up to max_age from
    // thisUpdate and stale beyond it.
    let sr = answer(&[], &[], None);
    let freshness = OcspFreshness::default(); // 24h max age, 5m skew

    // 12 hours later — within the 24h bound.
    assert!(validate_response_freshness(&sr, time(NOON + 12 * 3600), &freshness).is_ok());

    // Validation instant *before* thisUpdate (later-collected evidence) is
    // always within bound.
    assert!(validate_response_freshness(&sr, time(NOON - 6 * 3600), &freshness).is_ok());

    // 25 hours later — beyond the 24h bound (+ skew).
    let err = validate_response_freshness(&sr, time(NOON + 25 * 3600), &freshness)
        .expect_err("response older than max age must be rejected");
    assert!(
        matches!(err, LtvError::Ocsp(ref m) if m.message().contains("too old")),
        "got: {err:?}"
    );
}

#[test]
fn freshness_ends_exactly_with_age_and_skew() {
    let freshness = OcspFreshness::default();
    let sr = answer(&[], &[], None);
    let last = time(NOON + 86_400 + 300);
    assert!(validate_response_freshness(&sr, last, &freshness).is_ok());
    let later = UtcTime { seconds: last.seconds, nanos: 1 };
    assert!(validate_response_freshness(&sr, later, &freshness).is_err());

    let sr = answer(&[], &[], Some(time(NOON - 1)));
    let error = validate_response_freshness(&sr, time(NOON), &freshness).unwrap_err();
    assert!(error.message().contains("nextUpdate before thisUpdate"));
}

#[test]
fn test_parse_ocsp_response_invalid_data() {
    // Not a valid OCSP response
    let result = parse_ocsp_response(&[0x04, 0x00]); // OCTET STRING
    assert!(result.is_err());
}

#[test]
fn responder_statuses_are_reported() {
    for (status, name) in [
        (1, "malformedRequest"),
        (2, "internalError"),
        (3, "tryLater"),
        (5, "sigRequired"),
        (6, "unauthorized"),
    ] {
        let response = encode_sequence_raw(&encode_tlv(0x0A, &[status]));
        let error = validate_ocsp_response_status(&response).unwrap_err();
        assert!(matches!(error, LtvError::OcspResponderStatus(s) if s == status));
        assert_eq!(ocsp_response_status_name(status), name);
        assert_eq!(error.message(), format!("OCSP responder returned {name} ({status})"));
    }
    assert!(validate_ocsp_response_status(&encode_sequence_raw(&encode_tlv(0x0A, &[0]))).is_ok());
    assert!(validate_ocsp_response_status(&encode_sequence_raw(&encode_tlv(0x0A, &[]))).is_err());
}

#[test]
fn revocation_reasons_are_read() {
    let when = encode_tlv(0x18, b"20260601120000Z");
    let reason = encode_tlv(0xA0, &encode_tlv(0x0A, &[4]));
    assert!(matches!(
        parse_revoked_info(&[when.clone(), reason].concat()).unwrap(),
        CertStatus::Revoked { revocation_time, reason: RevocationReason::Superseded }
            if revocation_time == time(NOON)
    ));
    assert!(matches!(
        parse_revoked_info(&when).unwrap(),
        CertStatus::Revoked { reason: RevocationReason::Unspecified, .. }
    ));
    for code in [0, 1, 2, 3, 4, 5, 6, 8, 9, 10] {
        assert_eq!(RevocationReason::from_code(code).code(), code);
    }
}

#[test]
fn generalized_times_are_instants() {
    assert_eq!(parse_generalized_time(b"20260601120000Z"), Some(time(NOON)));
    assert_eq!(parse_generalized_time(b"19700101000000Z"), Some(time(0)));
    assert_eq!(parse_generalized_time(b"20260230120000Z"), None);
    assert_eq!(parse_generalized_time(b"202606011200Z"), None);
}

#[test]
fn response_body_rejects_oversized_content_length() {
    let error = BoundedBody::new(Some(5), 4).unwrap_err();
    assert!(error.message().contains("exceeds max body size"));
    assert!(BoundedBody::new(Some(4), 4).is_ok());
    assert_eq!(MAX_BODY_SIZE, 10 * 1024 * 1024);
}

#[test]
fn response_body_bounds_chunked_downloads() {
    let mut body = BoundedBody::new(None, 4).unwrap();
    body.push(b"abc").unwrap();
    let error = body.push(b"de").unwrap_err();
    assert!(error.message().contains("exceeds max body size"));

    let mut body = BoundedBody::new(Some(4), 4).unwrap();
    body.push(b"ABCD").unwrap();
    assert_eq!(body.into_bytes(), b"ABCD");
}

#[test]
fn bodies_are_received_in_pieces() {
    let mut body = BoundedBody::new(None, 5).unwrap();
    body.push(b"AB").unwrap();
    body.push(b"").unwrap();
    body.push(b"CDE").unwrap();
    assert!(body.push(b"F").is_err());
    assert_eq!(body.into_bytes(), b"ABCDE");
}

#[test]
fn bodies_that_are_no_response_are_refused() {
    assert!(validate_body(&[]).unwrap_err().message().contains("empty response"));
    assert!(validate_body(b"<html>").unwrap_err().message().contains("DER-encoded"));
    assert!(matches!(
        validate_body(&encode_sequence_raw(&encode_tlv(0x0A, &[6]))),
        Err(LtvError::OcspResponderStatus(6))
    ));
    assert!(validate_body(&encode_sequence_raw(&encode_tlv(0x0A, &[0]))).is_ok());
}
