//! Revocation checks with signed OCSP responses.

use const_oid::ObjectIdentifier;
use der::asn1::{BitString, OctetString};
use der::Encode;
use rsa::pkcs1v15::{Signature, SigningKey};
use rsa::signature::{Keypair, SignatureEncoding, Signer};
use rsa::{BigUint, RsaPrivateKey};
use sha2::Sha256;
use x509_cert::builder::{Builder, CertificateBuilder, Profile};
use x509_cert::serial_number::SerialNumber;
use x509_cert::spki::SubjectPublicKeyInfoOwned;
use x509_cert::time::{Time, Validity};
use x509_cert::Certificate as X509;

use ritsp_ltv::asn1::AlgorithmId;
use ritsp_ltv::cert::{certs_have_same_identity, Certificate};
use ritsp_ltv::crypto::verify::{verify_certificate_signature_with_policy, SignaturePolicy};
use ritsp_ltv::der_utils::{
    encode_sequence_from_parts, encode_sequence_raw, encode_tlv, parse_tlv, parse_tlv_with_rest,
};
use ritsp_ltv::error::{LtvError, TrustError};
use ritsp_ltv::ltv::ocsp::aia::{extract_aia_urls, extract_ocsp_urls, AiaAccessMethod};
use ritsp_ltv::ltv::ocsp::check::{
    check_revocation, check_revocation_detailed, check_revocation_detailed_with_issuer_path,
    check_revocation_detailed_with_nonce_policy, check_revocation_with_options,
    complete_ocsp_outcome, validate_nonce, validate_ocsp_certificate_path, OcspCheckOutcome,
    OcspFreshness,
};
use ritsp_ltv::ltv::ocsp::fetch::{prepare_fetch, prepare_fetch_with_nonce, FetchError};
use ritsp_ltv::ltv::ocsp::request::{
    build_ocsp_request, build_ocsp_request_for_nonce, build_ocsp_request_with_nonce,
    build_sha1_algorithm_identifier, sha1_hash, NONCE_SIZE, OCSP_NONCE_OID,
};
use ritsp_ltv::ltv::ocsp::responder::{
    has_ocsp_nocheck_extension, responder_matches_responder_id,
    validate_delegated_responder_extensions, validate_responder_trust,
    verify_ocsp_response_signature, ResponderRevocationCheck,
};
use ritsp_ltv::ltv::ocsp::response::{
    parse_ocsp_response, CertStatus, ParsedBasicOcspResponse, ResponderId,
};
use ritsp_ltv::ltv::status::{CertRole, RevocationReason, ValidationStatus};
use ritsp_ltv::time::{TimeSpan, UtcTime};
use ritsp_ltv::trust::{PathQuery, TrustQuery, TrustStore};

const CA_P: &str = "e920738203e1adb1122d9f0f63e11252812ba1fa099e7e8090306281a8aba18b5d42f5e504bd72fb\
    7fad090996c1e205b27fc582578b134d622006b430898310e6c97486155e49b9c7b821acc868a57f\
    db7dd25919b7ecb3d44bdcadb7ce629a24d4a1576d55003c6db24c62997dbfdf67fdafa5f6b5c810\
    fe9543f3b17dbc03";
const CA_Q: &str = "d9c83a779f47b4cdda8d67ce2ffddd03ee4312b54eb53dca48dc2c30d5bef1d28dfd226b32632e68\
    33ffaf79e7a47700d17e985483abc7c36a0afd292b21c308aca26f4199dcef1d793b04665b637848\
    f01d8d47da581b2bc39b99940f6be701d16e18a1a2a8617aca1888351bd4ce1a9b03d6678a78af27\
    9eda8078fba1d8a9";
const LEAF_P: &str = "f7638f4fb63e821e166514dfcd14c3f1da6bc2866a22b0eca50058726e9497e24728731ad0c47aaa\
    6cf393234e112c4881bbe617346c68c70169bf8d9f3f7ba67a3c216ed15a895d51e354306b3b19e7\
    3ef2a2abcd1e08cc57bbffdaf9e3052b0d3bead01b0657d9548cc972fe64f6dce8f759f79e3968c1\
    513617800bd12c41";
const LEAF_Q: &str = "fa40f3b08f5f85f12746c23c0aad2771f5073cd714d0e250708c6f08c6a1f7f04d4f6d9ed6f5f6fa\
    ef243713b91a025b74f589acec9e2fef4c02480dbbc9adb31b2b3641f9125fbbd2d0d657ddcf2e8b\
    5c02221260d9c794322f7dd566d4b224e971f364143daa71b241f29d2334349806387c0346da07fa\
    8e79d82d2a5169df";
const OTHER_P: &str = "e533797cff4701f99b0d53d89b38f9b226986148902d9592e5d207846bb15da620f1b3e96f091b15\
    05fdf0d8d5bcb32c7d96a858ca08ca1614a4bd6ef87c39443f68f222393fe95eae6c9b202c377232\
    5021cbf9ae12776872ff7e1cbee30a9417c4cd18294c48cb3722a0db65f22953b3c98cc48813a45c\
    7ced64d8dd517221";
const OTHER_Q: &str = "fcb0748f2c882ad469dbe9c85f60c2e6c2e389d29bc5a3ce0b4f5a1ff67da93b03b58c38f2229178\
    bcb9e589c393b17b6461c2380afc8289dea3b76904c16af05b1795f1fae3757aac82e4f621a708c1\
    4c970238b6cf0a598c2a6fb492627baf229a686565205cd7936b31e2fe83fa4a1e6a558ef1f21132\
    f1c3e29df2d13d35";
const ROOT_P: &str = "c7f524877170b2f1b9c4dfe14c01146f60b94f18d7a8d8559d28bc27fefbd6b9141f560db8218980\
    f25aa7e9adf9055903be1515d1b21303e2f6606d784461645e597bc36a098118658ad7c2219c62ca\
    ad9657cdcf209b1b9c2962ab4f2b41b703ca121661e9e1a4cee3e88de843d5407a34ec01c3fa0dc8\
    195a4f041197dec7";
const ROOT_Q: &str = "f41507a6c392be890824f67eb584910397dc836afde1bd227b1116eb135cccba92ea46e505951cd3\
    9776c9585ec8a033d0748226bef46c068c7929b2bde251a8001e3d4b300faf03872521c1e111cf7e\
    240e0bc227637fe6c32e40852cfd437e92806e32c4e30416dc4dd2d649b9e369aa2665efa610a6ce\
    1c211d2184d1d895";

fn key(p: &str, q: &str) -> RsaPrivateKey {
    let number = |hex: &str| BigUint::parse_bytes(hex.as_bytes(), 16).unwrap();
    RsaPrivateKey::from_p_q(number(p), number(q), BigUint::from(65537u32)).unwrap()
}

fn civil(year: u16) -> Time {
    Time::GeneralTime(der::asn1::GeneralizedTime::from_date_time(
        der::DateTime::new(year, 1, 1, 0, 0, 0).unwrap(),
    ))
}

/// Issues a certificate that is valid from 2025 to 2035, with `extensions` after
/// those of the profile.
fn issue(
    profile: Profile,
    serial: u8,
    subject: &str,
    subject_key: &RsaPrivateKey,
    signer_key: &RsaPrivateKey,
    extensions: Vec<x509_cert::ext::Extension>,
) -> X509 {
    let spki = SubjectPublicKeyInfoOwned::from_key(
        SigningKey::<Sha256>::new(subject_key.clone()).verifying_key(),
    )
    .unwrap();
    let signer = SigningKey::<Sha256>::new(signer_key.clone());
    let mut cert = CertificateBuilder::new(
        profile,
        SerialNumber::new(&[serial]).unwrap(),
        Validity { not_before: civil(2025), not_after: civil(2035) },
        subject.parse().unwrap(),
        spki,
        &signer,
    )
    .unwrap()
    .build::<Signature>()
    .unwrap();
    cert.tbs_certificate.extensions.get_or_insert_with(Vec::new).extend(extensions);
    resign(cert, signer_key)
}

/// Signs a certificate anew.
fn resign(mut cert: X509, signer_key: &RsaPrivateKey) -> X509 {
    let signature: Signature = SigningKey::<Sha256>::new(signer_key.clone())
        .sign(&cert.tbs_certificate.to_der().unwrap());
    cert.signature = BitString::from_bytes(&signature.to_vec()).unwrap();
    cert
}

fn extension(oid: &str, critical: bool, value: &[u8]) -> x509_cert::ext::Extension {
    x509_cert::ext::Extension {
        extn_id: ObjectIdentifier::new(oid).unwrap(),
        critical,
        extn_value: OctetString::new(value).unwrap(),
    }
}

/// The certificate as the library holds it.
fn lib(cert: &X509) -> Certificate {
    Certificate::from_der(&cert.to_der().unwrap()).unwrap()
}

fn ca_key() -> RsaPrivateKey {
    key(CA_P, CA_Q)
}

fn leaf_key() -> RsaPrivateKey {
    key(LEAF_P, LEAF_Q)
}

/// The CA that issues the certificates of these tests.
fn ca_cert() -> X509 {
    issue(Profile::Root, 7, "CN=Test Intermediate CA", &ca_key(), &ca_key(), vec![])
}

fn leaf_profile(issuer: &X509) -> Profile {
    Profile::Leaf {
        issuer: issuer.tbs_certificate.subject.clone(),
        enable_key_agreement: false,
        enable_key_encipherment: false,
    }
}

fn intermediate_ca_cert() -> X509 {
    ca_cert()
}

fn signer_cert() -> X509 {
    let issuer = ca_cert();
    issue(leaf_profile(&issuer), 0x55, "CN=Test Signer", &leaf_key(), &ca_key(), vec![])
}

fn at(text: &str) -> UtcTime {
    let time = chrono::DateTime::parse_from_rfc3339(text).unwrap();
    UtcTime { seconds: time.timestamp(), nanos: time.timestamp_subsec_nanos() }
}

fn generalized(time: &UtcTime) -> String {
    chrono::DateTime::from_timestamp(time.seconds, 0)
        .unwrap()
        .format("%Y%m%d%H%M%SZ")
        .to_string()
}

/// Builds an OCSP response signed by the issuer; produced and current from
/// 2026-06-01T12:00Z to 2026-06-08T12:00Z.
fn build_test_ocsp_response(
    issuer_cert: &X509,
    issuer_key: &RsaPrivateKey,
    cert: &X509,
    status: &CertStatus,
    nonce: Option<&[u8]>,
) -> Vec<u8> {
    build_test_ocsp_response_with_times(
        issuer_cert,
        issuer_key,
        cert,
        status,
        nonce,
        "20260601120000Z",
        "20260601120000Z",
        Some("20260608120000Z"),
    )
}

fn build_test_ocsp_response_with_responder_id(
    issuer_cert: &X509,
    issuer_key: &RsaPrivateKey,
    cert: &X509,
    status: &CertStatus,
    responder_id_tlv: &[u8],
) -> Vec<u8> {
    build_test_ocsp_response_full(
        issuer_cert,
        issuer_key,
        cert,
        status,
        None,
        "20260601120000Z",
        "20260601120000Z",
        Some("20260608120000Z"),
        responder_id_tlv,
    )
}

#[allow(clippy::too_many_arguments)]
fn build_test_ocsp_response_with_times(
    issuer_cert: &X509,
    issuer_key: &RsaPrivateKey,
    cert: &X509,
    status: &CertStatus,
    nonce: Option<&[u8]>,
    produced_at_str: &str,
    this_update_str: &str,
    next_update_str: Option<&str>,
) -> Vec<u8> {
    let issuer_subject_der = issuer_cert.tbs_certificate.subject.to_der().unwrap();
    let responder_id = encode_tlv(0xA1, &issuer_subject_der);
    build_test_ocsp_response_full(
        issuer_cert,
        issuer_key,
        cert,
        status,
        nonce,
        produced_at_str,
        this_update_str,
        next_update_str,
        &responder_id,
    )
}

#[allow(clippy::too_many_arguments)]
fn build_test_ocsp_response_full(
    issuer_cert: &X509,
    issuer_key: &RsaPrivateKey,
    cert: &X509,
    status: &CertStatus,
    nonce: Option<&[u8]>,
    produced_at_str: &str,
    this_update_str: &str,
    next_update_str: Option<&str>,
    responder_id_tlv: &[u8],
) -> Vec<u8> {
    let mut tbs_body = Vec::new();
    tbs_body.extend_from_slice(responder_id_tlv);
    tbs_body.extend_from_slice(&encode_tlv(0x18, produced_at_str.as_bytes()));
    let single_response = build_test_single_response_with_times(
        issuer_cert,
        cert,
        status,
        this_update_str,
        next_update_str,
    );
    tbs_body.extend_from_slice(&encode_sequence_from_parts(&[&single_response]));

    // responseExtensions [1] with nonce if provided
    if let Some(nonce_bytes) = nonce {
        let nonce_oid_tlv = encode_tlv(0x06, &OCSP_NONCE_OID);
        let nonce_inner = encode_tlv(0x04, nonce_bytes);
        let nonce_outer = encode_tlv(0x04, &nonce_inner);
        let nonce_ext = encode_sequence_from_parts(&[&nonce_oid_tlv, &nonce_outer]);
        let extensions_seq = encode_sequence_from_parts(&[&nonce_ext]);
        tbs_body.extend_from_slice(&encode_tlv(0xA1, &extensions_seq));
    }
    let tbs_der = encode_sequence_raw(&tbs_body);
    sign_basic_response(&tbs_der, issuer_key, &[])
}

/// Signs ResponseData, and wraps it with certificates as an OCSPResponse.
fn sign_basic_response(tbs_der: &[u8], signer_key: &RsaPrivateKey, certs: &[Vec<u8>]) -> Vec<u8> {
    let signature: Signature = SigningKey::<Sha256>::new(signer_key.clone()).sign(tbs_der);

    // signatureAlgorithm: sha256WithRSAEncryption
    let sha256_rsa_oid: &[u8] =
        &[0x06, 0x09, 0x2A, 0x86, 0x48, 0x86, 0xF7, 0x0D, 0x01, 0x01, 0x0B];
    let alg_id = encode_sequence_from_parts(&[sha256_rsa_oid, &[0x05, 0x00]]);
    wrap_basic_response(tbs_der, &alg_id, &signature.to_vec(), certs)
}

fn wrap_basic_response(
    tbs_der: &[u8],
    alg_id: &[u8],
    signature: &[u8],
    certs: &[Vec<u8>],
) -> Vec<u8> {
    let mut bit_string_value = vec![0x00];
    bit_string_value.extend_from_slice(signature);
    let sig_bit_string = encode_tlv(0x03, &bit_string_value);
    let mut basic = [tbs_der, alg_id, &sig_bit_string].concat();
    if !certs.is_empty() {
        basic.extend_from_slice(&encode_tlv(0xA0, &encode_sequence_raw(&certs.concat())));
    }
    let basic_response = encode_sequence_raw(&basic);

    // ResponseBytes SEQUENCE { responseType OID, response OCTET STRING }
    let basic_oid_tlv =
        encode_tlv(0x06, &[0x2B, 0x06, 0x01, 0x05, 0x05, 0x07, 0x30, 0x01, 0x01]);
    let basic_octet = encode_tlv(0x04, &basic_response);
    let response_bytes_seq = encode_sequence_from_parts(&[&basic_oid_tlv, &basic_octet]);
    let response_bytes_tagged = encode_tlv(0xA0, &response_bytes_seq);

    // responseStatus ENUMERATED successful (0)
    let response_status = encode_tlv(0x0A, &[0x00]);
    encode_sequence_from_parts(&[&response_status, &response_bytes_tagged])
}

fn build_test_single_response_with_times(
    issuer_cert: &X509,
    cert: &X509,
    status: &CertStatus,
    this_update_str: &str,
    next_update_str: Option<&str>,
) -> Vec<u8> {
    // CertID
    let issuer_name_hash =
        sha1_hash(&issuer_cert.tbs_certificate.subject.to_der().unwrap()).unwrap();
    let issuer_key_hash = sha1_hash(
        issuer_cert.tbs_certificate.subject_public_key_info.subject_public_key.raw_bytes(),
    )
    .unwrap();
    let serial = cert.tbs_certificate.serial_number.to_der().unwrap();
    let sha1_alg_id = build_sha1_algorithm_identifier();
    let name_hash_oct = encode_tlv(0x04, &issuer_name_hash);
    let key_hash_oct = encode_tlv(0x04, &issuer_key_hash);
    let cert_id =
        encode_sequence_from_parts(&[&sha1_alg_id, &name_hash_oct, &key_hash_oct, &serial]);

    // certStatus
    let cert_status_der = match status {
        // good [0] IMPLICIT NULL
        CertStatus::Good => encode_tlv(0x80, &[]),
        CertStatus::Revoked { revocation_time, reason } => {
            // revoked [1] IMPLICIT RevokedInfo
            let mut revoked_body = encode_tlv(0x18, generalized(revocation_time).as_bytes());
            if *reason != RevocationReason::Unspecified {
                let reason_enum = encode_tlv(0x0A, &[reason.code()]);
                revoked_body.extend_from_slice(&encode_tlv(0xA0, &reason_enum));
            }
            encode_tlv(0xA1, &revoked_body)
        }
        // unknown [2] IMPLICIT NULL
        CertStatus::Unknown => encode_tlv(0x82, &[]),
    };

    let this_update = encode_tlv(0x18, this_update_str.as_bytes());
    let mut parts: Vec<&[u8]> = vec![&cert_id, &cert_status_der, &this_update];

    // nextUpdate [0] EXPLICIT GeneralizedTime OPTIONAL
    let next_update;
    if let Some(nu_str) = next_update_str {
        next_update = encode_tlv(0xA0, &encode_tlv(0x18, nu_str.as_bytes()));
        parts.push(&next_update);
    }
    encode_sequence_from_parts(&parts)
}

fn status_at(
    status: &CertStatus,
    nonce: Option<&[u8]>,
    asked: Option<&[u8]>,
    time: &str,
) -> Result<ValidationStatus, LtvError> {
    let issuer = intermediate_ca_cert();
    let cert = signer_cert();
    let response = build_test_ocsp_response(&issuer, &ca_key(), &cert, status, nonce);
    check_revocation(&response, &lib(&cert), &lib(&issuer), asked, Some(at(time)))
}

#[test]
fn convenience_status_requires_completed_responder_revocation() {
    let status = ValidationStatus::Unknown { reason: "synthetic outcome" };
    assert!(complete_ocsp_outcome(OcspCheckOutcome { status, delegated_responder: None }).is_ok());
    assert!(complete_ocsp_outcome(OcspCheckOutcome {
        status,
        delegated_responder: Some(lib(&signer_cert())),
    })
    .unwrap_err()
    .message()
    .contains("own revocation check"));
}

#[test]
fn test_extract_ocsp_urls_from_fixture_cert() {
    let cert = lib(&signer_cert());
    assert!(extract_ocsp_urls(&cert).is_empty());
}

#[test]
fn urls_come_from_the_authority_information_access_extension() {
    let issuer = intermediate_ca_cert();
    let access = |method: u8, url: &str| {
        encode_sequence_from_parts(&[
            &encode_tlv(0x06, &[0x2B, 0x06, 0x01, 0x05, 0x05, 0x07, 0x30, method]),
            &encode_tlv(0x86, url.as_bytes()),
        ])
    };
    let aia = encode_sequence_raw(
        &[
            access(1, "http://one.example/"),
            access(2, "http://issuer.example/"),
            access(1, "http://two.example/"),
        ]
        .concat(),
    );
    let cert = lib(&issue(
        leaf_profile(&issuer),
        9,
        "CN=With URLs",
        &leaf_key(),
        &ca_key(),
        vec![extension("1.3.6.1.5.5.7.1.1", false, &aia)],
    ));
    assert_eq!(extract_ocsp_urls(&cert), vec!["http://one.example/", "http://two.example/"]);
    assert_eq!(
        extract_aia_urls(&cert, AiaAccessMethod::CaIssuers),
        vec!["http://issuer.example/"]
    );

    // The responders are tried in turn, and the last error is reported.
    let issuer = lib(&issuer);
    let (mut queue, request) = prepare_fetch(&cert, &issuer).unwrap();
    assert_eq!(request, build_ocsp_request(&cert, &issuer).unwrap());
    assert_eq!(queue.next(), Some("http://one.example/"));
    queue.failed(FetchError::Exchange("gone".to_string()));
    assert_eq!(queue.next(), Some("http://two.example/"));
    queue.failed(FetchError::Answer(LtvError::OcspResponderStatus(3)));
    assert_eq!(queue.next(), None);
    let last = queue.error();
    assert!(matches!(last, FetchError::Answer(LtvError::OcspResponderStatus(3))));
    assert_eq!(last.message(), LtvError::OcspResponderStatus(3).message());
    assert_eq!(FetchError::Exchange("gone".to_string()).message(), "OCSP error: gone");
    let (queue, request, nonce) = prepare_fetch_with_nonce(&cert, &issuer).unwrap();
    assert_eq!(queue.next(), Some("http://one.example/"));
    assert_eq!(request, build_ocsp_request_for_nonce(&cert, &issuer, &nonce).unwrap());
    assert!(queue.error().message().contains("all OCSP responder URLs failed"));
    assert!(prepare_fetch(&lib(&signer_cert()), &issuer)
        .unwrap_err()
        .message()
        .contains("no OCSP responder URL"));
}

#[test]
fn test_build_ocsp_request_with_nonce() {
    let cert = lib(&signer_cert());
    let issuer = lib(&intermediate_ca_cert());
    let (request, nonce) = build_ocsp_request_with_nonce(&cert, &issuer).unwrap();
    assert!(!request.is_empty());
    assert_eq!(request[0], 0x30); // SEQUENCE
    assert_eq!(nonce.len(), NONCE_SIZE);
}

#[test]
fn ocsp_requests_have_their_exact_encoding() {
    let cert = signer_cert();
    let issuer = intermediate_ca_cert();
    let id = encode_sequence_from_parts(&[
        &build_sha1_algorithm_identifier(),
        &encode_tlv(0x04, &sha1_hash(&issuer.tbs_certificate.subject.to_der().unwrap()).unwrap()),
        &encode_tlv(
            0x04,
            &sha1_hash(
                issuer.tbs_certificate.subject_public_key_info.subject_public_key.raw_bytes(),
            )
            .unwrap(),
        ),
        &[0x02, 0x01, 0x55],
    ]);
    let list = encode_sequence_raw(&encode_sequence_raw(&id));
    let request = build_ocsp_request(&lib(&cert), &lib(&issuer)).unwrap();
    assert_eq!(request, encode_sequence_raw(&encode_sequence_raw(&list)));
    let nonce = encode_sequence_from_parts(&[
        &encode_tlv(0x06, &OCSP_NONCE_OID),
        &encode_tlv(0x04, &encode_tlv(0x04, &[1, 2, 3])),
    ]);
    let tbs = [list, encode_tlv(0xA2, &encode_sequence_raw(&nonce))].concat();
    let request = build_ocsp_request_for_nonce(&lib(&cert), &lib(&issuer), &[1, 2, 3]).unwrap();
    assert_eq!(request, encode_sequence_raw(&encode_sequence_raw(&tbs)));
}

#[test]
fn test_parse_ocsp_response_good() {
    let issuer = intermediate_ca_cert();
    let cert = signer_cert();
    let response_der =
        build_test_ocsp_response(&issuer, &ca_key(), &cert, &CertStatus::Good, None);
    let parsed = parse_ocsp_response(&response_der).unwrap();
    assert_eq!(parsed.responses.len(), 1);
    assert!(matches!(parsed.responses[0].cert_status, CertStatus::Good));
    assert!(parsed.nonce.is_none());
    assert!(parsed.embedded_certs_der.is_empty());
    assert_eq!(parsed.produced_at, at("2026-06-01T12:00:00Z"));
    assert_eq!(parsed.responses[0].next_update, Some(at("2026-06-08T12:00:00Z")));
}

#[test]
fn test_parse_ocsp_response_revoked() {
    let issuer = intermediate_ca_cert();
    let cert = signer_cert();
    let status = CertStatus::Revoked {
        revocation_time: at("2026-03-01T00:00:00Z"),
        reason: RevocationReason::KeyCompromise,
    };
    let response_der = build_test_ocsp_response(&issuer, &ca_key(), &cert, &status, None);
    let parsed = parse_ocsp_response(&response_der).unwrap();
    assert_eq!(parsed.responses.len(), 1);
    match &parsed.responses[0].cert_status {
        CertStatus::Revoked { reason, .. } => {
            assert_eq!(*reason, RevocationReason::KeyCompromise);
        }
        other => panic!("expected Revoked, got: {other:?}"),
    }
}

#[test]
fn test_parse_ocsp_response_with_nonce() {
    let issuer = intermediate_ca_cert();
    let cert = signer_cert();
    let nonce = b"test-nonce-1234567890abcdef1234";
    let response_der =
        build_test_ocsp_response(&issuer, &ca_key(), &cert, &CertStatus::Good, Some(nonce));
    let parsed = parse_ocsp_response(&response_der).unwrap();
    assert!(parsed.nonce.is_some());
    assert_eq!(parsed.nonce.as_deref(), Some(nonce.as_slice()));
}

#[test]
fn test_check_revocation_good() {
    let status = status_at(&CertStatus::Good, None, None, "2026-06-01T12:00:00Z").unwrap();
    assert!(status.is_valid(), "should be valid: {status:?}");
}

#[test]
fn test_check_revocation_revoked() {
    let revoked = CertStatus::Revoked {
        revocation_time: at("2026-03-01T00:00:00Z"),
        reason: RevocationReason::Superseded,
    };
    let status = status_at(&revoked, None, None, "2026-06-01T12:00:00Z").unwrap();
    assert!(status.is_revoked(), "should be revoked: {status:?}");
    assert!(matches!(
        status,
        ValidationStatus::Revoked { reason: RevocationReason::Superseded, .. }
    ));
}

#[test]
fn test_check_revocation_time_aware_future_revocation() {
    // Revocation time is 2027-01-01, validation time is 2026-06-01
    // → should be VALID at validation_time
    let revoked = CertStatus::Revoked {
        revocation_time: at("2027-01-01T00:00:00Z"),
        reason: RevocationReason::Unspecified,
    };
    // The response was produced shortly after the validation time. Later-collected
    // evidence is accepted, and the revocation is in the future.
    let status = status_at(&revoked, None, None, "2026-06-01T00:00:00Z").unwrap();
    assert!(status.is_valid(), "should be valid (revocation in future): {status:?}");
}

#[test]
fn test_check_revocation_rejects_stale_good() {
    // A legitimately-signed "good" response is replayed long after its
    // nextUpdate (2026-06-08T12:00Z). It must NOT be accepted as Valid.
    let err = status_at(&CertStatus::Good, None, None, "2026-09-01T12:00:00Z")
        .expect_err("stale OCSP response must be rejected");
    assert!(
        matches!(err, LtvError::Ocsp(ref m) if m.message().contains("stale")),
        "expected stale error, got: {err:?}"
    );
}

#[test]
fn test_check_revocation_accepts_later_produced_evidence() {
    // thisUpdate 12:00, producedAt 14:00, nextUpdate 2026-06-08; the
    // validation instant 13:00 sits between thisUpdate and producedAt.
    let issuer = intermediate_ca_cert();
    let cert = signer_cert();
    let response_der = build_test_ocsp_response_with_times(
        &issuer,
        &ca_key(),
        &cert,
        &CertStatus::Good,
        None,
        "20260601140000Z",       // producedAt (after validation_time)
        "20260601120000Z",       // thisUpdate (<= validation_time)
        Some("20260608120000Z"), // nextUpdate
    );
    let status = check_revocation(
        &response_der,
        &lib(&cert),
        &lib(&issuer),
        None,
        Some(at("2026-06-01T13:00:00Z")),
    )
    .unwrap();
    assert!(
        status.is_valid(),
        "later-produced OCSP evidence must remain acceptable: {status:?}"
    );
}

#[test]
fn test_check_revocation_accepts_stale_within_skew() {
    // 3 minutes after nextUpdate — inside the 5-minute skew.
    let status = status_at(&CertStatus::Good, None, None, "2026-06-08T12:03:00Z").unwrap();
    assert!(status.is_valid(), "should be valid within skew: {status:?}");
    // One second past the skew.
    assert!(status_at(&CertStatus::Good, None, None, "2026-06-08T12:05:01Z").is_err());
}

#[test]
fn test_check_revocation_unknown_status() {
    let status = status_at(&CertStatus::Unknown, None, None, "2026-06-01T12:00:00Z").unwrap();
    assert!(status.is_unknown(), "should be unknown: {status:?}");
}

#[test]
fn another_certificate_is_not_answered_for() {
    let issuer = intermediate_ca_cert();
    let other =
        issue(leaf_profile(&issuer), 0x56, "CN=Other", &leaf_key(), &ca_key(), vec![]);
    let response =
        build_test_ocsp_response(&issuer, &ca_key(), &signer_cert(), &CertStatus::Good, None);
    let status = check_revocation(
        &response,
        &lib(&other),
        &lib(&issuer),
        None,
        Some(at("2026-06-01T12:00:00Z")),
    )
    .unwrap();
    assert!(matches!(
        status,
        ValidationStatus::Unknown { reason: "certificate not found in OCSP response" }
    ));
}

#[test]
fn test_check_revocation_with_valid_nonce() {
    let nonce = b"test-nonce-1234567890abcdef1234";
    let status =
        status_at(&CertStatus::Good, Some(nonce), Some(nonce), "2026-06-01T12:00:00Z").unwrap();
    assert!(status.is_valid(), "should be valid with nonce: {status:?}");
}

#[test]
fn freshness_options_widen_the_window() {
    let issuer = intermediate_ca_cert();
    let cert = signer_cert();
    let response = build_test_ocsp_response(&issuer, &ca_key(), &cert, &CertStatus::Good, None);
    let wide = OcspFreshness {
        clock_skew: TimeSpan { seconds: 3600, nanos: 0 },
        max_age_without_next_update: TimeSpan { seconds: 0, nanos: 0 },
    };
    let check = |freshness: &OcspFreshness| {
        check_revocation_with_options(
            &response,
            &lib(&cert),
            &lib(&issuer),
            None,
            Some(at("2026-06-08T13:00:00Z")),
            &SignaturePolicy::strict(),
            freshness,
        )
    };
    assert!(check(&wide).unwrap().is_valid());
    assert!(check(&OcspFreshness::default()).is_err());
}

#[test]
fn strict_nonce_requires_echo_without_changing_opportunistic_default() {
    let issuer_x = intermediate_ca_cert();
    let cert_x = signer_cert();
    let (issuer, cert) = (lib(&issuer_x), lib(&cert_x));
    let nonce = b"nonce-binding-test";
    let at = at("2026-06-01T12:00:00Z");
    let policy = SignaturePolicy::strict();
    let freshness = OcspFreshness::default();
    let absent = build_test_ocsp_response(&issuer_x, &ca_key(), &cert_x, &CertStatus::Good, None);
    // Even direct-issuer responses must reach the supplied trust store when using
    // the complete-path API.
    let empty_store = TrustStore {
        policy: SignaturePolicy::strict(),
        validate: |_: &TrustQuery| Err(TrustError::Path("no trusted anchor")),
    };
    let refused = check_revocation_detailed_with_issuer_path(
        &absent,
        &cert,
        &issuer,
        None,
        Some(at),
        &policy,
        &freshness,
        &[issuer.duplicate()],
        &empty_store,
        false,
    )
    .unwrap_err();
    assert_eq!(
        refused.message(),
        "OCSP error: OCSP certificate issuer path: no trusted anchor"
    );
    assert!(check_revocation_detailed(
        &absent,
        &cert,
        &issuer,
        Some(nonce),
        Some(at),
        &policy,
        &freshness
    )
    .unwrap()
    .status
    .is_valid());
    let strict = |response: &[u8], nonce: Option<&[u8]>| {
        check_revocation_detailed_with_nonce_policy(
            response,
            &cert,
            &issuer,
            nonce,
            Some(at),
            &policy,
            &freshness,
            true,
        )
    };
    assert!(strict(&absent, Some(nonce)).is_err());
    assert!(strict(&absent, None).is_err());
    assert!(strict(&absent, Some(&[])).is_err());
    for response_nonce in [nonce.as_slice(), b"different-nonce".as_slice()] {
        let response = build_test_ocsp_response(
            &issuer_x,
            &ca_key(),
            &cert_x,
            &CertStatus::Good,
            Some(response_nonce),
        );
        assert_eq!(strict(&response, Some(nonce)).is_ok(), response_nonce == nonce);
    }
}

fn encode_parsed_ocsp_fixture(parsed: &ParsedBasicOcspResponse) -> Vec<u8> {
    let mut algorithm = encode_tlv(0x06, &parsed.signature_algorithm.oid);
    algorithm.extend_from_slice(parsed.signature_algorithm.parameters.as_deref().unwrap_or(&[]));
    wrap_basic_response(
        &parsed.tbs_response_data,
        &encode_sequence_raw(&algorithm),
        &parsed.signature_bytes,
        &parsed.embedded_certs_der,
    )
}

#[test]
fn signed_ocsp_rejects_critical_duplicate_and_malformed_extensions_in_both_contexts() {
    let issuer = intermediate_ca_cert();
    let cert = signer_cert();
    let key = ca_key();
    let direct = build_test_ocsp_response(&issuer, &key, &cert, &CertStatus::Good, None);
    let parsed = parse_ocsp_response(&direct).unwrap();
    let (_, body) = parse_tlv(&parsed.tbs_response_data).unwrap();
    let mut fields = Vec::new();
    let mut pos = body.as_slice();
    while !pos.is_empty() {
        let (_, _, rest) = parse_tlv_with_rest(pos).unwrap();
        fields.push(pos[..pos.len() - rest.len()].to_vec());
        pos = rest;
    }
    let optional = extension("1.2.3.4.5", false, &[0x05, 0x00]).to_der().unwrap();
    let critical = extension("1.2.3.4.5", true, &[0x05, 0x00]).to_der().unwrap();
    let nonce =
        extension("1.3.6.1.5.5.7.48.1.2", false, &encode_tlv(0x04, b"bounded-nonce"))
            .to_der()
            .unwrap();
    let cases = [
        (optional.clone(), true, true),
        (critical, false, false),
        ([optional.clone(), optional].concat(), false, false),
        ([nonce.clone(), nonce.clone()].concat(), false, false),
        (nonce, true, false),
        (vec![0x30, 0x03, 0x06, 0x01, 0x2A], false, false),
    ];
    for (extensions, response_allowed, single_allowed) in cases {
        for single in [false, true] {
            let mut new_fields = fields.clone();
            let wrapper = encode_tlv(0xA1, &encode_sequence_raw(&extensions));
            if single {
                let (_, responses) = parse_tlv(&new_fields[2]).unwrap();
                let (_, single_body) = parse_tlv(&responses).unwrap();
                new_fields[2] = encode_sequence_raw(&encode_sequence_raw(
                    &[single_body, wrapper].concat(),
                ));
            } else {
                new_fields.push(wrapper);
            }
            let response =
                sign_basic_response(&encode_sequence_raw(&new_fields.concat()), &key, &[]);
            assert_eq!(
                check_revocation(
                    &response,
                    &lib(&cert),
                    &lib(&issuer),
                    None,
                    Some(at("2026-06-01T12:00:00Z"))
                )
                .is_ok(),
                if single { single_allowed } else { response_allowed }
            );
        }
    }
    let wrapped = [encode_tlv(0x04, b"bounded-nonce"), vec![0x05, 0x00]].concat();
    assert!(validate_nonce(b"bounded-nonce", &wrapped).is_err());
}

#[test]
fn direct_issuer_uses_exact_caller_validity_despite_embedded_same_key_hints() {
    let issuer = intermediate_ca_cert();
    let cert = signer_cert();
    let response = build_test_ocsp_response(&issuer, &ca_key(), &cert, &CertStatus::Good, None);
    let mut parsed = parse_ocsp_response(&response).unwrap();
    let mut hint = issuer.clone();
    hint.tbs_certificate.serial_number = SerialNumber::new(&[91]).unwrap();
    hint.tbs_certificate.validity.not_before = civil(2027);
    parsed.embedded_certs_der = vec![hint.to_der().unwrap()];
    let time = at("2026-06-01T12:00:00Z");
    let policy = SignaturePolicy::strict();
    assert_eq!(
        verify_ocsp_response_signature(&parsed, &lib(&issuer), &policy).unwrap().der,
        lib(&issuer).der
    );
    let response = encode_parsed_ocsp_fixture(&parsed);
    assert!(check_revocation(&response, &lib(&cert), &lib(&issuer), None, Some(time))
        .unwrap()
        .is_valid());
    let mut expired_caller = issuer;
    expired_caller.tbs_certificate.validity.not_after = civil(2025);
    assert!(check_revocation(&response, &lib(&cert), &lib(&expired_caller), None, Some(time))
        .unwrap_err()
        .message()
        .contains("expired"));
}

/// Validates a path to `root`, which constrains DNS names to `.allowed.example`.
fn constrained_path(root: &Certificate, query: &PathQuery) -> Result<(), TrustError> {
    let policy = SignaturePolicy::strict();
    let mut issuers: Vec<&Certificate> = query.chain.iter().skip(1).collect();
    issuers.push(root);
    for (cert, issuer) in query.chain.iter().zip(issuers) {
        if cert.issuer != issuer.subject {
            return Err(TrustError::Path("the path is broken"));
        }
        verify_certificate_signature_with_policy(cert, issuer, &policy)?;
    }
    for (i, cert) in query.chain.iter().enumerate() {
        let leaf = i == 0 && query.role == CertRole::OcspResponder;
        for e in cert.extensions.iter().flatten() {
            if !leaf && e.critical && e.extn_id == [0x55, 0x1D, 0x25] {
                return Err(TrustError::Path("critical CA extendedKeyUsage"));
            }
            let other = b".other.example";
            if e.extn_id == [0x55, 0x1D, 0x11] && e.extn_value.ends_with(other) {
                return Err(TrustError::Path("name constraints"));
            }
        }
    }
    Ok(())
}

#[test]
fn delegated_ocsp_requires_complete_path_and_obeys_ancestor_constraints_even_with_nocheck() {
    let root_key = key(ROOT_P, ROOT_Q);
    let issuer_key = ca_key();
    let responder_key = key(OTHER_P, OTHER_Q);
    let dns_constraint = encode_sequence_raw(&encode_tlv(
        0xA0,
        &encode_sequence_raw(&encode_tlv(0x82, b".allowed.example")),
    ));
    let root = issue(
        Profile::Root,
        1,
        "CN=Responder Path Root",
        &root_key,
        &root_key,
        vec![extension("2.5.29.30", true, &dns_constraint)],
    );
    let mut issuer = issue(
        Profile::SubCA {
            issuer: root.tbs_certificate.subject.clone(),
            path_len_constraint: None,
        },
        1,
        "CN=Responder Path Issuer",
        &issuer_key,
        &root_key,
        vec![],
    );
    // CA certificates without KeyUsage are permitted.
    issuer
        .tbs_certificate
        .extensions
        .as_mut()
        .unwrap()
        .retain(|ext| ext.extn_id.to_string() != "2.5.29.15");
    let issuer = resign(issuer, &root_key);
    let anchor = lib(&root);
    let store = TrustStore {
        policy: SignaturePolicy::strict(),
        validate: |query: &TrustQuery| match query {
            TrustQuery::Path(path) => constrained_path(&anchor, path),
            TrustQuery::Names { .. } => Ok(()),
        },
    };
    let now = at("2026-06-01T12:00:00Z");
    let direct = build_test_ocsp_response(
        &issuer,
        &issuer_key,
        &signer_cert(),
        &CertStatus::Good,
        None,
    );
    let parsed = parse_ocsp_response(&direct).unwrap();
    for (dns, valid) in
        [("responder.allowed.example", true), ("responder.other.example", false)]
    {
        let eku = encode_sequence_raw(
            &ObjectIdentifier::new_unwrap("1.3.6.1.5.5.7.3.9").to_der().unwrap(),
        );
        let san = encode_sequence_raw(&encode_tlv(0x82, dns.as_bytes()));
        let responder = issue(
            leaf_profile(&issuer),
            1,
            "CN=Delegated Responder",
            &responder_key,
            &issuer_key,
            vec![
                extension("2.5.29.37", false, &eku),
                extension("2.5.29.17", false, &san),
                extension("1.3.6.1.5.5.7.48.1.5", false, &[0x05, 0x00]),
            ],
        );
        let (_, body) = parse_tlv(&parsed.tbs_response_data).unwrap();
        let (_, _, after_id) = parse_tlv_with_rest(&body).unwrap();
        let responder_id =
            encode_tlv(0xA1, &responder.tbs_certificate.subject.to_der().unwrap());
        let tbs = encode_sequence_raw(&[responder_id, after_id.to_vec()].concat());
        let response = sign_basic_response(&tbs, &responder_key, &[responder.to_der().unwrap()]);
        let policy = SignaturePolicy::strict();
        let freshness = OcspFreshness::default();
        let denied = check_revocation_detailed(
            &response,
            &lib(&signer_cert()),
            &lib(&issuer),
            None,
            Some(now),
            &policy,
            &freshness,
        )
        .unwrap_err();
        assert!(denied.message().contains("complete issuer path"), "{denied:?}");
        let result = check_revocation_detailed_with_issuer_path(
            &response,
            &lib(&signer_cert()),
            &lib(&issuer),
            None,
            Some(now),
            &policy,
            &freshness,
            &[lib(&issuer)],
            &store,
            false,
        );
        assert_eq!(result.is_ok(), valid, "{dns}: {result:?}");
        if valid {
            let outcome = result.unwrap();
            assert!(outcome.status.is_valid());
            // The responder's certificate says that it need not be checked.
            assert!(outcome.delegated_responder.is_none());
            let mut restricted_issuer = issuer.clone();
            restricted_issuer
                .tbs_certificate
                .extensions
                .as_mut()
                .unwrap()
                .push(extension("2.5.29.37", true, &eku));
            let restricted_issuer = lib(&resign(restricted_issuer, &root_key));
            let err = check_revocation_detailed_with_issuer_path(
                &response,
                &lib(&signer_cert()),
                &restricted_issuer,
                None,
                Some(now),
                &policy,
                &freshness,
                &[restricted_issuer.duplicate()],
                &store,
                false,
            )
            .unwrap_err();
            assert!(err.message().contains("critical CA extendedKeyUsage"), "{err:?}");
        }
    }
}

#[test]
fn a_delegated_responder_without_nocheck_is_left_to_be_checked() {
    let issuer = intermediate_ca_cert();
    let responder_key = key(OTHER_P, OTHER_Q);
    let eku =
        encode_sequence_raw(&ObjectIdentifier::new_unwrap("1.3.6.1.5.5.7.3.9").to_der().unwrap());
    let responder = issue(
        leaf_profile(&issuer),
        3,
        "CN=Delegated Responder",
        &responder_key,
        &ca_key(),
        vec![extension("2.5.29.37", false, &eku)],
    );
    let direct =
        build_test_ocsp_response(&issuer, &ca_key(), &signer_cert(), &CertStatus::Good, None);
    let parsed = parse_ocsp_response(&direct).unwrap();
    let (_, body) = parse_tlv(&parsed.tbs_response_data).unwrap();
    let (_, _, after_id) = parse_tlv_with_rest(&body).unwrap();
    let id = encode_tlv(0xA1, &responder.tbs_certificate.subject.to_der().unwrap());
    let tbs = encode_sequence_raw(&[id, after_id.to_vec()].concat());
    let response = sign_basic_response(&tbs, &responder_key, &[responder.to_der().unwrap()]);
    let check = |names: Result<(), TrustError>, chain: &[Certificate]| {
        let store = TrustStore {
            policy: SignaturePolicy::strict(),
            validate: move |query: &TrustQuery| match query {
                TrustQuery::Path(_) => Ok(()),
                TrustQuery::Names { .. } => names,
            },
        };
        check_revocation_detailed_with_issuer_path(
            &response,
            &lib(&signer_cert()),
            &lib(&issuer),
            None,
            Some(at("2026-06-01T12:00:00Z")),
            &SignaturePolicy::strict(),
            &OcspFreshness::default(),
            chain,
            &store,
            false,
        )
    };
    let names = parse_ocsp_response(&response).unwrap();
    let trust = |verdict: Result<(), TrustError>| {
        validate_responder_trust(
            &lib(&responder),
            &lib(&issuer),
            &names,
            &SignaturePolicy::strict(),
            at("2026-06-01T12:00:00Z"),
            verdict,
        )
    };
    assert_eq!(trust(Ok(())).unwrap(), ResponderRevocationCheck::Required);
    assert!(trust(Err(TrustError::Path("excluded name"))).is_err());
    let outcome = check(Ok(()), &[lib(&issuer)]).unwrap();
    assert!(outcome.status.is_valid());
    assert_eq!(outcome.delegated_responder.unwrap().der, lib(&responder).der);
    let refused = check(Err(TrustError::Path("excluded name")), &[lib(&issuer)]).unwrap_err();
    assert_eq!(
        refused.message(),
        "OCSP error: delegated OCSP responder name constraints: excluded name"
    );
    assert!(check(Ok(()), &[lib(&signer_cert())])
        .unwrap_err()
        .message()
        .contains("does not start with the expected issuer"));
    assert!(check(Ok(()), &[]).is_err());
}

#[test]
fn paths_are_put_to_the_store_for_the_exact_time() {
    let issuer = lib(&intermediate_ca_cert());
    let store = TrustStore {
        policy: SignaturePolicy::allow_legacy(),
        validate: |query: &TrustQuery| match query {
            TrustQuery::Path(path) => {
                let seen = (path.at.year, path.at.month, path.at.day, path.at.hour, path.at.minute);
                if seen == (2026, 2, 28, 23, 59)
                    && path.at.second == 58
                    && path.positive_fraction
                    && !path.policy.legacy_allowed()
                    && path.role == CertRole::IntermediateCa
                    && path.chain.len() == 1
                {
                    Ok(())
                } else {
                    Err(TrustError::Path("unexpected question"))
                }
            }
            TrustQuery::Names { .. } => Err(TrustError::Path("unexpected question")),
        },
    };
    let validate = |time: UtcTime| {
        validate_ocsp_certificate_path(
            &[issuer.duplicate()],
            &store,
            CertRole::IntermediateCa,
            &SignaturePolicy::strict(),
            time,
        )
    };
    assert!(validate(at("2026-02-28T23:59:58.25Z")).is_ok());
    assert!(validate(at("2026-02-28T23:59:58Z")).is_err());
    assert!(validate(UtcTime { seconds: -1, nanos: 0 })
        .unwrap_err()
        .message()
        .contains("path validation time"));
    assert!(validate(UtcTime { seconds: i64::MAX, nanos: 0 })
        .unwrap_err()
        .message()
        .contains("validation year"));
}

#[test]
fn test_has_ocsp_nocheck_extension() {
    // The test certificates don't have this extension, so this tests the negative case
    let cert = lib(&signer_cert());
    assert!(!has_ocsp_nocheck_extension(&cert));
}

fn delegated_profile_cert() -> X509 {
    let mut cert = signer_cert();
    let oid = encode_tlv(0x06, &[0x2B, 0x06, 0x01, 0x05, 0x05, 0x07, 0x03, 0x09]);
    let eku = encode_sequence_from_parts(&[&oid]);
    cert.tbs_certificate.extensions = Some(vec![extension("2.5.29.37", false, &eku)]);
    cert
}

fn profile_with(more: x509_cert::ext::Extension) -> Result<(), LtvError> {
    let mut cert = delegated_profile_cert();
    cert.tbs_certificate.extensions.as_mut().unwrap().push(more);
    validate_delegated_responder_extensions(&lib(&cert))
}

#[test]
fn issuer_identity_requires_the_public_key_and_allows_same_key_reissue() {
    let issuer = intermediate_ca_cert();
    let mut reissued = issuer.clone();
    reissued.tbs_certificate.serial_number = signer_cert().tbs_certificate.serial_number;
    assert!(certs_have_same_identity(&lib(&reissued), &lib(&issuer)));

    reissued.tbs_certificate.subject_public_key_info =
        signer_cert().tbs_certificate.subject_public_key_info;
    assert!(!certs_have_same_identity(&lib(&reissued), &lib(&issuer)));
}

#[test]
fn responder_trust_rejects_same_name_with_a_different_key() {
    let issuer = intermediate_ca_cert();
    let mut responder = signer_cert();
    responder.tbs_certificate.subject = issuer.tbs_certificate.subject.clone();
    let now = at("2026-06-01T12:00:00Z");
    // Only authorization is under test; no response or signature is built.
    let parsed = ParsedBasicOcspResponse {
        tbs_response_data: Vec::new(),
        signature_algorithm: AlgorithmId { oid: vec![0x2A], parameters: None },
        signature_bytes: Vec::new(),
        responder_id: ResponderId::ByName(issuer.tbs_certificate.subject.to_der().unwrap()),
        produced_at: now,
        responses: Vec::new(),
        nonce: None,
        embedded_certs_der: Vec::new(),
    };
    let trust = |responder: &X509| {
        validate_responder_trust(
            &lib(responder),
            &lib(&issuer),
            &parsed,
            &SignaturePolicy::default(),
            now,
            Ok(()),
        )
    };
    let error = trust(&responder).unwrap_err();
    assert!(error.message().contains("not issued by the expected CA"));
    assert_eq!(trust(&issuer).unwrap(), ResponderRevocationCheck::NotRequired);
}

#[test]
fn delegated_responder_key_usage_must_permit_signing() {
    assert!(validate_delegated_responder_extensions(&lib(&delegated_profile_cert())).is_ok());
    assert!(profile_with(extension("2.5.29.15", true, &[0x03, 0x02, 0x01, 0x81])).is_err());
    for allowed in [0x80, 0x40] {
        let usage = encode_tlv(0x03, &[0x00, allowed]);
        assert!(profile_with(extension("2.5.29.15", true, &usage)).is_ok());
    }
    let usage = encode_tlv(0x03, &[0x00, 0x20]);
    let error = profile_with(extension("2.5.29.15", true, &usage)).unwrap_err();
    assert!(error.message().contains("keyUsage does not permit signing"));
}

#[test]
fn delegated_responder_rejects_unprocessed_critical_and_duplicate_extensions() {
    let error = profile_with(extension("1.2.3.4", true, &[0x05, 0x00])).unwrap_err();
    assert!(error.message().contains("unprocessed critical extension"));
    assert!(profile_with(extension("1.2.3.4", false, &[0x05, 0x00])).is_ok());

    let duplicate =
        delegated_profile_cert().tbs_certificate.extensions.as_ref().unwrap()[0].clone();
    assert!(profile_with(duplicate).unwrap_err().message().contains("duplicate extension"));
}

#[test]
fn delegated_responder_nocheck_requires_der_null() {
    let mut cert = delegated_profile_cert();
    cert.tbs_certificate
        .extensions
        .as_mut()
        .unwrap()
        .push(extension("1.3.6.1.5.5.7.48.1.5", false, &[0x05, 0x00]));
    assert!(has_ocsp_nocheck_extension(&lib(&cert)));
    assert!(validate_delegated_responder_extensions(&lib(&cert)).is_ok());

    cert.tbs_certificate.extensions.as_mut().unwrap().last_mut().unwrap().extn_value =
        OctetString::new([0x04, 0x00]).unwrap();
    assert!(!has_ocsp_nocheck_extension(&lib(&cert)));
    assert!(validate_delegated_responder_extensions(&lib(&cert)).is_err());
}

#[test]
fn delegated_responder_extensions_are_decoded() {
    for oid in ["2.5.29.19", "2.5.29.17"] {
        assert!(profile_with(extension(oid, false, &[0x05, 0x00])).is_err());
    }
    assert!(profile_with(extension("2.5.29.19", true, &[0x30, 0x00])).is_ok());
    let san = encode_sequence_raw(&encode_tlv(0x82, b"ocsp.example"));
    assert!(profile_with(extension("2.5.29.17", true, &san)).is_ok());
    // Without the purpose no certificate may sign.
    assert!(validate_delegated_responder_extensions(&lib(&signer_cert()))
        .unwrap_err()
        .message()
        .contains("id-kp-OCSPSigning"));
}

#[test]
fn test_responder_id_variants() {
    let issuer = intermediate_ca_cert();
    let cert = signer_cert();
    let response_der =
        build_test_ocsp_response(&issuer, &ca_key(), &cert, &CertStatus::Good, None);
    let parsed = parse_ocsp_response(&response_der).unwrap();
    // Our synthetic response uses byName
    assert!(matches!(parsed.responder_id, ResponderId::ByName(_)));
}

#[test]
fn test_responder_matches_responder_id_byname() {
    let issuer = intermediate_ca_cert();
    let issuer_subject = issuer.tbs_certificate.subject.to_der().unwrap();

    // Correct byName matches the issuer (the responder) subject.
    assert!(responder_matches_responder_id(
        &lib(&issuer),
        &ResponderId::ByName(issuer_subject.clone())
    )
    .is_ok());

    // A different DN (the signer's subject) must NOT match.
    let other = signer_cert().tbs_certificate.subject.to_der().unwrap();
    let err = responder_matches_responder_id(&lib(&issuer), &ResponderId::ByName(other))
        .expect_err("mismatched responderID byName must be rejected");
    assert!(
        matches!(err, LtvError::Ocsp(ref m) if m.message().contains("byName")),
        "got {err:?}"
    );
}

#[test]
fn test_responder_matches_responder_id_bykeyhash() {
    let issuer = intermediate_ca_cert();
    let key_bytes =
        issuer.tbs_certificate.subject_public_key_info.subject_public_key.raw_bytes().to_vec();
    let correct = sha1_hash(&key_bytes).unwrap();
    assert!(
        responder_matches_responder_id(&lib(&issuer), &ResponderId::ByKeyHash(correct)).is_ok()
    );

    let wrong = sha1_hash(b"not the responder key").unwrap();
    let err = responder_matches_responder_id(&lib(&issuer), &ResponderId::ByKeyHash(wrong))
        .expect_err("mismatched responderID byKeyHash must be rejected");
    assert!(
        matches!(err, LtvError::Ocsp(ref m) if m.message().contains("byKeyHash")),
        "got {err:?}"
    );
}

#[test]
fn test_check_revocation_rejects_wrong_responder_id() {
    // A response whose responderID (byName) names a *different* certificate than
    // the one whose key actually signed it must be rejected.
    let issuer = intermediate_ca_cert();
    let cert = signer_cert();
    let wrong_name = cert.tbs_certificate.subject.to_der().unwrap();
    let response_der = build_test_ocsp_response_with_responder_id(
        &issuer,
        &ca_key(),
        &cert,
        &CertStatus::Good,
        &encode_tlv(0xA1, &wrong_name),
    );
    let err = check_revocation(
        &response_der,
        &lib(&cert),
        &lib(&issuer),
        None,
        Some(at("2026-06-01T12:00:00Z")),
    )
    .expect_err("a response with a mismatched responderID must be rejected");
    assert!(
        matches!(err, LtvError::Ocsp(ref m) if m.message().contains("responderID")),
        "expected responderID mismatch rejection, got: {err:?}"
    );
}

#[test]
fn a_response_signed_by_another_key_is_rejected() {
    let issuer = intermediate_ca_cert();
    let cert = signer_cert();
    let response =
        build_test_ocsp_response(&issuer, &key(OTHER_P, OTHER_Q), &cert, &CertStatus::Good, None);
    let err = check_revocation(
        &response,
        &lib(&cert),
        &lib(&issuer),
        None,
        Some(at("2026-06-01T12:00:00Z")),
    )
    .unwrap_err();
    assert!(err.message().contains("could not be verified against any candidate"));
}

#[test]
fn certificates_name_one_signature_algorithm() {
    let issuer = intermediate_ca_cert();
    let policy = SignaturePolicy::allow_legacy();
    let good = lib(&signer_cert());
    assert!(verify_certificate_signature_with_policy(&good, &lib(&issuer), &policy).is_ok());
    assert!(verify_certificate_signature_with_policy(&lib(&issuer), &good, &policy).is_err());
    let mut mixed = signer_cert();
    mixed.tbs_certificate.signature.oid = ObjectIdentifier::new_unwrap("1.2.840.113549.1.1.12");
    let mixed = lib(&resign(mixed, &ca_key()));
    let error =
        verify_certificate_signature_with_policy(&mixed, &lib(&issuer), &policy).unwrap_err();
    assert!(error.message().contains("mismatch"));
}

#[test]
fn test_issuer_responder_needs_no_revocation_check() {
    // When the responder IS the issuing CA (not delegated), no responder
    // revocation check is required.
    let issuer = intermediate_ca_cert();
    let cert = signer_cert();
    let response_der =
        build_test_ocsp_response(&issuer, &ca_key(), &cert, &CertStatus::Good, None);
    let outcome = check_revocation_detailed(
        &response_der,
        &lib(&cert),
        &lib(&issuer),
        None,
        Some(at("2026-06-01T12:00:00Z")),
        &SignaturePolicy::default(),
        &OcspFreshness::default(),
    )
    .unwrap();
    assert!(outcome.status.is_valid());
    assert!(
        outcome.delegated_responder.is_none(),
        "a CA-signed (non-delegated) response needs no responder revocation check"
    );
}

#[test]
fn certificates_are_valid_only_within_their_time() {
    let early = status_at(&CertStatus::Good, None, None, "2024-12-31T23:59:59Z").unwrap_err();
    assert!(early.message().contains("not yet valid"));
    let late = status_at(&CertStatus::Good, None, None, "2035-01-01T00:00:01Z").unwrap_err();
    assert!(late.message().contains("expired"));
}
