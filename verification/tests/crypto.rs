//! Hashes, signatures and policies.

use der::Encode;
use rsa::pkcs1v15::{Signature, SigningKey};
use rsa::pkcs8::EncodePublicKey;
use rsa::signature::{SignatureEncoding, Signer};
use rsa::{BigUint, Pkcs1v15Sign, RsaPrivateKey};
use sha1::Sha1;
use sha2::{Digest, Sha256};

use ritsp_ltv::asn1::AlgorithmId;
use ritsp_ltv::crypto::algorithm::DigestAlgorithm;
use ritsp_ltv::crypto::verify::{
    verify_rsa_pss_signature_strict, verify_signature_by_algid_with_policy,
    verify_signature_by_oid, SignaturePolicy, OID_ECDSA_SHA256, OID_ECDSA_SHA384, OID_ED25519,
    OID_RSA_SHA1, OID_RSA_SHA256,
};
use ritsp_ltv::error::TrustError;
use ritsp_ltv::oid::Oid;

const LEAF_P: &str = "f7638f4fb63e821e166514dfcd14c3f1da6bc2866a22b0eca50058726e9497e24728731ad0c47aaa\
    6cf393234e112c4881bbe617346c68c70169bf8d9f3f7ba67a3c216ed15a895d51e354306b3b19e7\
    3ef2a2abcd1e08cc57bbffdaf9e3052b0d3bead01b0657d9548cc972fe64f6dce8f759f79e3968c1\
    513617800bd12c41";
const LEAF_Q: &str = "fa40f3b08f5f85f12746c23c0aad2771f5073cd714d0e250708c6f08c6a1f7f04d4f6d9ed6f5f6fa\
    ef243713b91a025b74f589acec9e2fef4c02480dbbc9adb31b2b3641f9125fbbd2d0d657ddcf2e8b\
    5c02221260d9c794322f7dd566d4b224e971f364143daa71b241f29d2334349806387c0346da07fa\
    8e79d82d2a5169df";

/// The P-256 key and the SHA-256 signature of "sample" from RFC 6979.
const P256_SPKI: [u8; 91] = [
    0x30, 0x59, 0x30, 0x13, 0x06, 0x07, 0x2A, 0x86, 0x48, 0xCE, 0x3D, 0x02, 0x01, 0x06,
    0x08, 0x2A, 0x86, 0x48, 0xCE, 0x3D, 0x03, 0x01, 0x07, 0x03, 0x42, 0x00, 0x04, 0x60,
    0xFE, 0xD4, 0xBA, 0x25, 0x5A, 0x9D, 0x31, 0xC9, 0x61, 0xEB, 0x74, 0xC6, 0x35, 0x6D,
    0x68, 0xC0, 0x49, 0xB8, 0x92, 0x3B, 0x61, 0xFA, 0x6C, 0xE6, 0x69, 0x62, 0x2E, 0x60,
    0xF2, 0x9F, 0xB6, 0x79, 0x03, 0xFE, 0x10, 0x08, 0xB8, 0xBC, 0x99, 0xA4, 0x1A, 0xE9,
    0xE9, 0x56, 0x28, 0xBC, 0x64, 0xF2, 0xF1, 0xB2, 0x0C, 0x2D, 0x7E, 0x9F, 0x51, 0x77,
    0xA3, 0xC2, 0x94, 0xD4, 0x46, 0x22, 0x99,
];

const P256_SIGNATURE: [u8; 72] = [
    0x30, 0x46, 0x02, 0x21, 0x00, 0xEF, 0xD4, 0x8B, 0x2A, 0xAC, 0xB6, 0xA8, 0xFD, 0x11,
    0x40, 0xDD, 0x9C, 0xD4, 0x5E, 0x81, 0xD6, 0x9D, 0x2C, 0x87, 0x7B, 0x56, 0xAA, 0xF9,
    0x91, 0xC3, 0x4D, 0x0E, 0xA8, 0x4E, 0xAF, 0x37, 0x16, 0x02, 0x21, 0x00, 0xF7, 0xCB,
    0x1C, 0x94, 0x2D, 0x65, 0x7C, 0x41, 0xD4, 0x36, 0xC7, 0xA1, 0xB6, 0xE2, 0x9F, 0x65,
    0xF3, 0xE9, 0x00, 0xDB, 0xB9, 0xAF, 0xF4, 0x06, 0x4D, 0xC4, 0xAB, 0x2F, 0x84, 0x3A,
    0xCD, 0xA8,
];


fn key() -> RsaPrivateKey {
    let number = |hex: &str| BigUint::parse_bytes(hex.as_bytes(), 16).unwrap();
    RsaPrivateKey::from_p_q(number(LEAF_P), number(LEAF_Q), BigUint::from(65537u32)).unwrap()
}

fn spki() -> Vec<u8> {
    rsa::RsaPublicKey::from(&key()).to_public_key_der().unwrap().as_bytes().to_vec()
}

#[test]
fn hashes_have_their_values() {
    assert_eq!(
        DigestAlgorithm::Sha256.digest(b"abc").unwrap(),
        Sha256::digest(b"abc").to_vec()
    );
    for (alg, name, size) in [
        (DigestAlgorithm::Sha256, "SHA-256", 32),
        (DigestAlgorithm::Sha384, "SHA-384", 48),
        (DigestAlgorithm::Sha512, "SHA-512", 64),
        (DigestAlgorithm::Sha3_256, "SHA3-256", 32),
        (DigestAlgorithm::Sha3_384, "SHA3-384", 48),
        (DigestAlgorithm::Sha3_512, "SHA3-512", 64),
    ] {
        assert_eq!(alg.name(), name);
        assert_eq!(alg.output_size(), size);
        assert_eq!(alg.digest(b"abc").unwrap().len(), size);
        assert_eq!(DigestAlgorithm::from_oid(&alg.oid()), Some(alg));
    }
    assert_eq!(DigestAlgorithm::from_oid(&[0x2B, 0x0E, 0x03, 0x02, 0x1A]), None);
}

#[test]
fn object_identifiers_have_their_texts() {
    let oid = Oid::from_bytes(&[0x2B, 0x06, 0x01, 0x05, 0x05, 0x07, 0x03, 0x08]).unwrap();
    assert_eq!(oid.to_text(), "1.3.6.1.5.5.7.3.8");
    assert_eq!(oid.as_bytes(), &[0x2B, 0x06, 0x01, 0x05, 0x05, 0x07, 0x03, 0x08]);
    assert!(Oid::from_bytes(&[0x80]).is_none());
    assert!(Oid::from_bytes(&[]).is_none());
}

#[test]
fn ecdsa_signatures_are_checked() {
    assert!(
        verify_signature_by_oid(b"sample", &P256_SIGNATURE, &P256_SPKI, &OID_ECDSA_SHA256).is_ok()
    );
    assert!(
        verify_signature_by_oid(b"simple", &P256_SIGNATURE, &P256_SPKI, &OID_ECDSA_SHA256).is_err()
    );
    assert!(
        verify_signature_by_oid(b"sample", &P256_SIGNATURE, &P256_SPKI, &OID_ECDSA_SHA384).is_err()
    );
}

/// A key and the signature of the empty message from RFC 8032.
const ED25519_SPKI: [u8; 44] = [
    0x30, 0x2A, 0x30, 0x05, 0x06, 0x03, 0x2B, 0x65, 0x70, 0x03, 0x21, 0x00, 0xD7, 0x5A,
    0x98, 0x01, 0x82, 0xB1, 0x0A, 0xB7, 0xD5, 0x4B, 0xFE, 0xD3, 0xC9, 0x64, 0x07, 0x3A,
    0x0E, 0xE1, 0x72, 0xF3, 0xDA, 0xA6, 0x23, 0x25, 0xAF, 0x02, 0x1A, 0x68, 0xF7, 0x07,
    0x51, 0x1A,
];

const ED25519_SIGNATURE: [u8; 64] = [
    0xE5, 0x56, 0x43, 0x00, 0xC3, 0x60, 0xAC, 0x72, 0x90, 0x86, 0xE2, 0xCC, 0x80, 0x6E,
    0x82, 0x8A, 0x84, 0x87, 0x7F, 0x1E, 0xB8, 0xE5, 0xD9, 0x74, 0xD8, 0x73, 0xE0, 0x65,
    0x22, 0x49, 0x01, 0x55, 0x5F, 0xB8, 0x82, 0x15, 0x90, 0xA3, 0x3B, 0xAC, 0xC6, 0x1E,
    0x39, 0x70, 0x1C, 0xF9, 0xB4, 0x6B, 0xD2, 0x5B, 0xF5, 0xF0, 0x59, 0x5B, 0xBE, 0x24,
    0x65, 0x51, 0x41, 0x43, 0x8E, 0x7A, 0x10, 0x0B,
];

#[test]
fn ed25519_signatures_are_checked() {
    assert!(verify_signature_by_oid(b"", &ED25519_SIGNATURE, &ED25519_SPKI, &OID_ED25519).is_ok());
    assert!(verify_signature_by_oid(b"x", &ED25519_SIGNATURE, &ED25519_SPKI, &OID_ED25519).is_err());
}

#[test]
fn rsa_signatures_are_checked() {
    let signature: Signature = SigningKey::<Sha256>::new(key()).sign(b"data");
    let signature = signature.to_vec();
    assert!(verify_signature_by_oid(b"data", &signature, &spki(), &OID_RSA_SHA256).is_ok());
    assert!(matches!(
        verify_signature_by_oid(b"date", &signature, &spki(), &OID_RSA_SHA256),
        Err(TrustError::SignatureVerification(_))
    ));
    assert!(verify_signature_by_oid(b"data", &signature, &P256_SPKI, &OID_RSA_SHA256).is_err());
    assert!(matches!(
        verify_signature_by_oid(b"data", &signature, &spki(), &[0x2A, 0x03, 0x04]),
        Err(TrustError::UnsupportedAlgorithm(_))
    ));
}

#[test]
fn weak_signatures_need_the_legacy_policy() {
    let signature = key().sign(Pkcs1v15Sign::new::<Sha1>(), &Sha1::digest(b"data")).unwrap();
    let algorithm = AlgorithmId { oid: OID_RSA_SHA1.to_vec(), parameters: Some(vec![5, 0]) };
    let check = |policy: SignaturePolicy| {
        verify_signature_by_algid_with_policy(b"data", &signature, &spki(), &algorithm, &policy)
    };
    assert!(check(SignaturePolicy::allow_legacy()).is_ok());
    assert!(matches!(
        check(SignaturePolicy::strict()),
        Err(TrustError::UnsupportedAlgorithm(_))
    ));
    assert!(!SignaturePolicy::default().legacy_allowed());
    // What the strict policy admits, the legacy policy admits too.
    let strong: Signature = SigningKey::<Sha256>::new(key()).sign(b"data");
    let algorithm = AlgorithmId { oid: OID_RSA_SHA256.to_vec(), parameters: Some(vec![5, 0]) };
    for policy in [SignaturePolicy::strict(), SignaturePolicy::allow_legacy()] {
        assert!(verify_signature_by_algid_with_policy(
            b"data",
            &strong.to_vec(),
            &spki(),
            &algorithm,
            &policy
        )
        .is_ok());
    }
}

#[test]
fn pss_parameters_must_name_one_supported_hash() {
    let with = |parameters: &[u8]| {
        verify_rsa_pss_signature_strict(b"data", &[0; 256], &spki(), Some(parameters))
    };
    // The defaults stand for SHA-1.
    assert!(matches!(with(&[0x30, 0x00]), Err(TrustError::UnsupportedAlgorithm(_))));
    let params = rsa::pkcs1::RsaPssParams::new::<Sha256>(32).to_der().unwrap();
    assert!(matches!(with(&params), Err(TrustError::SignatureVerification(_))));
    let mut trailing = params;
    trailing.push(0);
    assert!(matches!(with(&trailing), Err(TrustError::UnsupportedAlgorithm(_))));
}
