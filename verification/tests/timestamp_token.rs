//! Verification of timestamp tokens.

use cms::cert::{CertificateChoices, IssuerAndSerialNumber};
use cms::content_info::{CmsVersion, ContentInfo};
use cms::signed_data::{
    CertificateSet, EncapsulatedContentInfo, SignedData, SignerIdentifier, SignerInfo, SignerInfos,
};
use const_oid::ObjectIdentifier;
use der::asn1::{Any, BitString, OctetString, SetOfVec};
use der::{Decode, Encode, Tag};
use rsa::pkcs1v15::{Signature, SigningKey};
use rsa::pkcs8::EncodePublicKey;
use rsa::signature::{Keypair, RandomizedSigner, SignatureEncoding, Signer};
use rsa::{BigUint, Pkcs1v15Sign, RsaPrivateKey};
use sha1::Sha1;
use sha2::{Digest, Sha256};
use spki::AlgorithmIdentifierOwned;
use x509_cert::attr::Attribute;
use x509_cert::builder::{Builder, CertificateBuilder, Profile};
use x509_cert::serial_number::SerialNumber;
use x509_cert::spki::SubjectPublicKeyInfoOwned;
use x509_cert::time::{Time, Validity};
use x509_cert::Certificate as X509;

use ritsp_ltv::asn1::AlgorithmId;
use ritsp_ltv::cert::Certificate;
use ritsp_ltv::crypto::algorithm::{DigestAlgorithm, HashAlgorithm};
use ritsp_ltv::crypto::verify::{SignaturePolicy, OID_RSASSA_PSS, OID_RSA_SHA256};
use ritsp_ltv::der_utils::{
    encode_integer_u64, encode_sequence_from_parts, encode_sequence_raw, encode_tlv, parse_tlv,
};
use ritsp_ltv::error::{TrustError, TspError};
use ritsp_ltv::ltv::status::CertRole;
use ritsp_ltv::oid::Oid;
use ritsp_ltv::time::CivilTime;
use ritsp_ltv::trust::{TrustQuery, TrustStore};
use ritsp_ltv::tsp::chain::order_chain;
use ritsp_ltv::tsp::ess::{parse_ess_binding, EssBinding};
use ritsp_ltv::tsp::response::{digest_algorithm_identifier, TimeStampResp};
use ritsp_ltv::tsp::signer::{
    gen_time_datetime, require_not_ca, require_timestamping_eku, signer_identifier_matches,
};
use ritsp_ltv::tsp::cms::SignerId;
use ritsp_ltv::tsp::status::PkiStatus;
use ritsp_ltv::tsp::tst_info::{extract_tst_info, parse_tst_info_body, TstInfo};
use ritsp_ltv::tsp::verify::{
    conclude_token, validate_timestamp_response, validate_timestamp_response_for_policy,
    verify_cms_signature, verify_timestamp_token,
};

const CA_P: &str = "e920738203e1adb1122d9f0f63e11252812ba1fa099e7e8090306281a8aba18b5d42f5e504bd72fb\
    7fad090996c1e205b27fc582578b134d622006b430898310e6c97486155e49b9c7b821acc868a57f\
    db7dd25919b7ecb3d44bdcadb7ce629a24d4a1576d55003c6db24c62997dbfdf67fdafa5f6b5c810\
    fe9543f3b17dbc03";
const CA_Q: &str = "d9c83a779f47b4cdda8d67ce2ffddd03ee4312b54eb53dca48dc2c30d5bef1d28dfd226b32632e68\
    33ffaf79e7a47700d17e985483abc7c36a0afd292b21c308aca26f4199dcef1d793b04665b637848\
    f01d8d47da581b2bc39b99940f6be701d16e18a1a2a8617aca1888351bd4ce1a9b03d6678a78af27\
    9eda8078fba1d8a9";
const LEAF_P: &str = "f7638f4fb63e821e166514dfcd14c3f1da6bc2866a22b0eca50058726e9497e24728731ad0c47aaa\
    6cf393234e112c4881bbe617346c68c70169bf8d9f3f7ba67a3c216ed15a895d51e354306b3b19e7\
    3ef2a2abcd1e08cc57bbffdaf9e3052b0d3bead01b0657d9548cc972fe64f6dce8f759f79e3968c1\
    513617800bd12c41";
const LEAF_Q: &str = "fa40f3b08f5f85f12746c23c0aad2771f5073cd714d0e250708c6f08c6a1f7f04d4f6d9ed6f5f6fa\
    ef243713b91a025b74f589acec9e2fef4c02480dbbc9adb31b2b3641f9125fbbd2d0d657ddcf2e8b\
    5c02221260d9c794322f7dd566d4b224e971f364143daa71b241f29d2334349806387c0346da07fa\
    8e79d82d2a5169df";
const OTHER_P: &str = "e533797cff4701f99b0d53d89b38f9b226986148902d9592e5d207846bb15da620f1b3e96f091b15\
    05fdf0d8d5bcb32c7d96a858ca08ca1614a4bd6ef87c39443f68f222393fe95eae6c9b202c377232\
    5021cbf9ae12776872ff7e1cbee30a9417c4cd18294c48cb3722a0db65f22953b3c98cc48813a45c\
    7ced64d8dd517221";
const OTHER_Q: &str = "fcb0748f2c882ad469dbe9c85f60c2e6c2e389d29bc5a3ce0b4f5a1ff67da93b03b58c38f2229178\
    bcb9e589c393b17b6461c2380afc8289dea3b76904c16af05b1795f1fae3757aac82e4f621a708c1\
    4c970238b6cf0a598c2a6fb492627baf229a686565205cd7936b31e2fe83fa4a1e6a558ef1f21132\
    f1c3e29df2d13d35";
const ROOT_P: &str = "c7f524877170b2f1b9c4dfe14c01146f60b94f18d7a8d8559d28bc27fefbd6b9141f560db8218980\
    f25aa7e9adf9055903be1515d1b21303e2f6606d784461645e597bc36a098118658ad7c2219c62ca\
    ad9657cdcf209b1b9c2962ab4f2b41b703ca121661e9e1a4cee3e88de843d5407a34ec01c3fa0dc8\
    195a4f041197dec7";
const ROOT_Q: &str = "f41507a6c392be890824f67eb584910397dc836afde1bd227b1116eb135cccba92ea46e505951cd3\
    9776c9585ec8a033d0748226bef46c068c7929b2bde251a8001e3d4b300faf03872521c1e111cf7e\
    240e0bc227637fe6c32e40852cfd437e92806e32c4e30416dc4dd2d649b9e369aa2665efa610a6ce\
    1c211d2184d1d895";

fn key(p: &str, q: &str) -> RsaPrivateKey {
    let number = |hex: &str| BigUint::parse_bytes(hex.as_bytes(), 16).unwrap();
    RsaPrivateKey::from_p_q(number(p), number(q), BigUint::from(65537u32)).unwrap()
}

fn civil(year: u16) -> Time {
    Time::GeneralTime(der::asn1::GeneralizedTime::from_date_time(
        der::DateTime::new(year, 1, 1, 0, 0, 0).unwrap(),
    ))
}

/// Issues a certificate that is valid from 2025 to 2035, with `extensions` after
/// those of the profile.
fn issue(
    profile: Profile,
    serial: u8,
    subject: &str,
    subject_key: &RsaPrivateKey,
    signer_key: &RsaPrivateKey,
    extensions: Vec<x509_cert::ext::Extension>,
) -> X509 {
    let spki = SubjectPublicKeyInfoOwned::from_key(
        SigningKey::<Sha256>::new(subject_key.clone()).verifying_key(),
    )
    .unwrap();
    let signer = SigningKey::<Sha256>::new(signer_key.clone());
    let mut cert = CertificateBuilder::new(
        profile,
        SerialNumber::new(&[serial]).unwrap(),
        Validity { not_before: civil(2025), not_after: civil(2035) },
        subject.parse().unwrap(),
        spki,
        &signer,
    )
    .unwrap()
    .build::<Signature>()
    .unwrap();
    cert.tbs_certificate.extensions.get_or_insert_with(Vec::new).extend(extensions);
    resign(cert, signer_key)
}

/// Signs a certificate anew.
fn resign(mut cert: X509, signer_key: &RsaPrivateKey) -> X509 {
    let signature: Signature = SigningKey::<Sha256>::new(signer_key.clone())
        .sign(&cert.tbs_certificate.to_der().unwrap());
    cert.signature = BitString::from_bytes(&signature.to_vec()).unwrap();
    cert
}

fn extension(oid: &str, critical: bool, value: &[u8]) -> x509_cert::ext::Extension {
    x509_cert::ext::Extension {
        extn_id: ObjectIdentifier::new(oid).unwrap(),
        critical,
        extn_value: OctetString::new(value).unwrap(),
    }
}

/// The certificate as the library holds it.
fn lib(cert: &X509) -> Certificate {
    Certificate::from_der(&cert.to_der().unwrap()).unwrap()
}

fn ca_key() -> RsaPrivateKey {
    key(CA_P, CA_Q)
}

fn leaf_key() -> RsaPrivateKey {
    key(LEAF_P, LEAF_Q)
}

/// The CA that issues the certificates of these tests.
fn ca_cert() -> X509 {
    issue(Profile::Root, 7, "CN=Test Intermediate CA", &ca_key(), &ca_key(), vec![])
}

fn leaf_profile(issuer: &X509) -> Profile {
    Profile::Leaf {
        issuer: issuer.tbs_certificate.subject.clone(),
        enable_key_agreement: false,
        enable_key_encipherment: false,
    }
}

const ID_KP_TIME_STAMPING: &str = "1.3.6.1.5.5.7.3.8";
const ID_CT_TST_INFO: ObjectIdentifier = ObjectIdentifier::new_unwrap("1.2.840.113549.1.9.16.1.4");
const ID_SIGNED_DATA: ObjectIdentifier = ObjectIdentifier::new_unwrap("1.2.840.113549.1.7.2");
const ID_CONTENT_TYPE_ATTR: ObjectIdentifier = ObjectIdentifier::new_unwrap("1.2.840.113549.1.9.3");
const ID_MESSAGE_DIGEST_ATTR: ObjectIdentifier =
    ObjectIdentifier::new_unwrap("1.2.840.113549.1.9.4");
const ID_SIGNING_CERTIFICATE: ObjectIdentifier =
    ObjectIdentifier::new_unwrap("1.2.840.113549.1.9.16.2.12");
const ID_SIGNING_CERTIFICATE_V2: ObjectIdentifier =
    ObjectIdentifier::new_unwrap("1.2.840.113549.1.9.16.2.47");
const RSA_ENCRYPTION: ObjectIdentifier = ObjectIdentifier::new_unwrap("1.2.840.113549.1.1.1");
const SHA256: ObjectIdentifier = ObjectIdentifier::new_unwrap("2.16.840.1.101.3.4.2.1");

/// A time within the validity of the certificates.
const GEN_TIME: &[u8] = b"20260601120000Z";

fn intermediate_cert() -> X509 {
    ca_cert()
}

fn timestamping_eku() -> x509_cert::ext::Extension {
    let purpose = ObjectIdentifier::new_unwrap(ID_KP_TIME_STAMPING).to_der().unwrap();
    extension("2.5.29.37", true, &encode_sequence_raw(&purpose))
}

fn tsa_cert() -> X509 {
    issue(
        leaf_profile(&ca_cert()),
        0x2A,
        "CN=Runtime Test TSA,O=ritsp-ltv tests",
        &leaf_key(),
        &ca_key(),
        vec![timestamping_eku()],
    )
}

fn tsa_key() -> RsaPrivateKey {
    leaf_key()
}

fn synthetic_tst_info_fields() -> Vec<Vec<u8>> {
    let algorithm = digest_algorithm_identifier(DigestAlgorithm::Sha256);
    let hash = encode_tlv(0x04, &[0xAA; 32]);
    vec![
        encode_integer_u64(1),
        ObjectIdentifier::new_unwrap("1.2.3.4").to_der().unwrap(),
        encode_sequence_from_parts(&[&algorithm, &hash]),
        encode_integer_u64(42),
        encode_tlv(0x18, b"20260303120000Z"),
    ]
}

fn synthetic_tst_info(fields: &[Vec<u8>]) -> Vec<u8> {
    encode_sequence_raw(&fields.concat())
}

/// Builds a TSTInfo with the given hash, nonce and time.
fn build_tst_info(hash: &[u8], nonce: u64, gen_time_bytes: &[u8]) -> Vec<u8> {
    let version = encode_integer_u64(1);
    // policy OID (arbitrary but well-formed)
    let policy = encode_tlv(0x06, &[0x2B, 0x06, 0x01, 0x04, 0x01]);
    let alg = encode_sequence_from_parts(&[&SHA256.to_der().unwrap(), &[0x05, 0x00]]);
    let hashed = encode_tlv(0x04, hash);
    let message_imprint = encode_sequence_from_parts(&[&alg, &hashed]);
    let serial = encode_integer_u64(42);
    let gen_time = encode_tlv(0x18, gen_time_bytes);
    let nonce_int = encode_integer_u64(nonce);
    encode_sequence_raw(
        &[version, policy, message_imprint, serial, gen_time, nonce_int].concat(),
    )
}

fn build_signed_token(
    signer_cert: &X509,
    signer_key: &RsaPrivateKey,
    extra_certs: &[X509],
    hash: &[u8],
    nonce: u64,
    corrupt_sig: bool,
) -> Vec<u8> {
    build_signed_token_gt(
        signer_cert,
        signer_key,
        extra_certs,
        hash,
        nonce,
        GEN_TIME,
        true,
        corrupt_sig,
    )
}

fn attribute(oid: ObjectIdentifier, value: Any) -> Attribute {
    Attribute { oid, values: SetOfVec::try_from(vec![value]).unwrap() }
}

/// Builds a token signed by `signer_key`, with or without the certificates. The
/// signature of a corrupt one is over other bytes.
#[allow(clippy::too_many_arguments)]
fn build_signed_token_gt(
    signer_cert: &X509,
    signer_key: &RsaPrivateKey,
    extra_certs: &[X509],
    hash: &[u8],
    nonce: u64,
    gen_time_bytes: &[u8],
    embed_certs: bool,
    corrupt_sig: bool,
) -> Vec<u8> {
    let tst_info_der = build_tst_info(hash, nonce, gen_time_bytes);
    let digest = Sha256::digest(&tst_info_der).to_vec();
    let ct_attr = attribute(ID_CONTENT_TYPE_ATTR, Any::encode_from(&ID_CT_TST_INFO).unwrap());
    let md_attr = attribute(ID_MESSAGE_DIGEST_ATTR, Any::new(Tag::OctetString, digest).unwrap());
    let cert_hash = Sha256::digest(signer_cert.to_der().unwrap());
    let ess_id = encode_sequence_raw(&encode_tlv(0x04, &cert_hash));
    let ess = encode_sequence_raw(&encode_sequence_raw(&ess_id));
    let ess_attr = attribute(ID_SIGNING_CERTIFICATE_V2, Any::from_der(&ess).unwrap());
    let signed_attrs: x509_cert::attr::Attributes =
        SetOfVec::try_from(vec![ct_attr, md_attr, ess_attr]).unwrap();

    // Sign the DER of the SET OF signed attributes.
    let signed_attrs_der = signed_attrs.to_der().unwrap();
    let to_sign: &[u8] =
        if corrupt_sig { b"not the signed attributes" } else { &signed_attrs_der };
    let signature: Signature = SigningKey::<Sha256>::new(signer_key.clone()).sign(to_sign);

    let sha256_alg = AlgorithmIdentifierOwned { oid: SHA256, parameters: Some(Any::null()) };
    let signer_info = SignerInfo {
        version: CmsVersion::V1,
        sid: SignerIdentifier::IssuerAndSerialNumber(IssuerAndSerialNumber {
            issuer: signer_cert.tbs_certificate.issuer.clone(),
            serial_number: signer_cert.tbs_certificate.serial_number.clone(),
        }),
        digest_alg: sha256_alg.clone(),
        signed_attrs: Some(signed_attrs),
        signature_algorithm: AlgorithmIdentifierOwned {
            oid: RSA_ENCRYPTION,
            parameters: Some(Any::null()),
        },
        signature: OctetString::new(signature.to_vec()).unwrap(),
        unsigned_attrs: None,
    };

    // Embedded certificates (optional): signer first, then any extras.
    let certificates = if embed_certs {
        let mut choices = vec![CertificateChoices::Certificate(signer_cert.clone())];
        for cert in extra_certs {
            choices.push(CertificateChoices::Certificate(cert.clone()));
        }
        Some(CertificateSet::from(SetOfVec::try_from(choices).unwrap()))
    } else {
        None
    };
    wrap_signed_data(&SignedData {
        version: CmsVersion::V3,
        digest_algorithms: SetOfVec::try_from(vec![sha256_alg]).unwrap(),
        encap_content_info: EncapsulatedContentInfo {
            econtent_type: ID_CT_TST_INFO,
            econtent: Some(Any::new(Tag::OctetString, tst_info_der).unwrap()),
        },
        certificates,
        crls: None,
        signer_infos: SignerInfos::from(SetOfVec::try_from(vec![signer_info]).unwrap()),
    })
}

fn wrap_signed_data(signed_data: &SignedData) -> Vec<u8> {
    ContentInfo {
        content_type: ID_SIGNED_DATA,
        content: Any::encode_from(signed_data).unwrap(),
    }
    .to_der()
    .unwrap()
}

fn opened(token: &[u8]) -> SignedData {
    ContentInfo::from_der(token).unwrap().content.decode_as().unwrap()
}

fn ess_attribute(
    cert: &X509,
    v2: bool,
    algorithm: Option<DigestAlgorithm>,
    issuer_serial: bool,
) -> Attribute {
    let der = cert.to_der().unwrap();
    let hash = if v2 {
        algorithm.unwrap_or(DigestAlgorithm::Sha256).digest(&der).unwrap()
    } else {
        Sha1::digest(&der).to_vec()
    };
    let mut id = Vec::new();
    if let Some(algorithm) = algorithm {
        id.extend_from_slice(&digest_algorithm_identifier(algorithm));
    }
    id.extend_from_slice(&encode_tlv(0x04, &hash));
    if issuer_serial {
        let issuer = encode_tlv(0xA4, &cert.tbs_certificate.issuer.to_der().unwrap());
        let names = encode_sequence_raw(&issuer);
        let serial = cert.tbs_certificate.serial_number.to_der().unwrap();
        id.extend_from_slice(&encode_sequence_from_parts(&[&names, &serial]));
    }
    let value = encode_sequence_raw(&encode_sequence_raw(&encode_sequence_raw(&id)));
    let oid = if v2 { ID_SIGNING_CERTIFICATE_V2 } else { ID_SIGNING_CERTIFICATE };
    attribute(oid, Any::from_der(&value).unwrap())
}

/// Signs a token anew after changing authenticated fields.
fn rewrite_signed_fixture(
    token: &[u8],
    attributes: Option<Vec<Attribute>>,
    tsa: Option<&[u8]>,
) -> Vec<u8> {
    let mut sd = opened(token);
    let mut si = sd.signer_infos.0.iter().next().unwrap().clone();
    let mut attrs: Vec<_> = si.signed_attrs.as_ref().unwrap().iter().cloned().collect();
    if let Some(attributes) = attributes {
        attrs.retain(|a| a.oid != ID_SIGNING_CERTIFICATE && a.oid != ID_SIGNING_CERTIFICATE_V2);
        attrs.extend(attributes);
    }
    if let Some(tsa) = tsa {
        let content = sd.encap_content_info.econtent.as_ref().unwrap().value();
        let (_, sequence) = parse_tlv(content).unwrap();
        let content = encode_sequence_raw(&[sequence, encode_tlv(0xA0, tsa)].concat());
        let digest = Sha256::digest(&content).to_vec();
        attrs.retain(|a| a.oid != ID_MESSAGE_DIGEST_ATTR);
        attrs.push(attribute(
            ID_MESSAGE_DIGEST_ATTR,
            Any::new(Tag::OctetString, digest).unwrap(),
        ));
        sd.encap_content_info.econtent = Some(Any::new(Tag::OctetString, content).unwrap());
    }
    si.signed_attrs = Some(SetOfVec::try_from(attrs).unwrap());
    let signature: Signature = SigningKey::<Sha256>::new(tsa_key())
        .sign(&si.signed_attrs.as_ref().unwrap().to_der().unwrap());
    si.signature = OctetString::new(signature.to_vec()).unwrap();
    sd.signer_infos = SignerInfos::from(SetOfVec::try_from(vec![si]).unwrap());
    wrap_signed_data(&sd)
}

/// Verifies a token for SHA-256 without a trust store.
fn verify(
    token: &[u8],
    hash: &[u8],
    nonce: Option<u64>,
    extra: &[Certificate],
) -> Result<TstInfo, TspError> {
    verify_timestamp_token(
        token,
        hash,
        DigestAlgorithm::Sha256,
        nonce,
        None::<&TrustStore<fn(&TrustQuery) -> Result<(), TrustError>>>,
        None,
        extra,
    )
}

/// The certificate with `extensions` and no others.
fn with_extensions(extensions: Vec<x509_cert::ext::Extension>) -> Certificate {
    let mut cert = intermediate_cert();
    cert.tbs_certificate.extensions = Some(extensions);
    lib(&cert)
}

#[test]
fn test_tsa_eku_requires_one_exclusive_fully_parsed_timestamp_purpose() {
    let oid = ObjectIdentifier::new_unwrap(ID_KP_TIME_STAMPING).to_der().unwrap();
    let valid = encode_sequence_raw(&oid);
    let eku = |value: &[u8]| extension("2.5.29.37", true, value);
    assert!(require_timestamping_eku(&with_extensions(vec![eku(&valid)])).is_ok());
    let other_purpose = ObjectIdentifier::new_unwrap("1.3.6.1.5.5.7.3.1").to_der().unwrap();
    for invalid in [
        encode_sequence_from_parts(&[&oid, &other_purpose]),
        encode_sequence_from_parts(&[&oid, &oid]),
        encode_sequence_raw(&[]),
        encode_sequence_from_parts(&[&oid, &[0x06, 0x02, 0x2A]]),
        [valid.clone(), vec![0x05, 0x00]].concat(),
    ] {
        assert!(require_timestamping_eku(&with_extensions(vec![eku(&invalid)])).is_err());
    }
    assert!(matches!(
        require_timestamping_eku(&with_extensions(vec![eku(&valid), eku(&valid)])),
        Err(TspError::VerificationFailed(fault)) if fault.message().contains("duplicate")
    ));
    // It must be critical.
    let lax = extension("2.5.29.37", false, &valid);
    assert!(require_timestamping_eku(&with_extensions(vec![lax])).is_err());
}

#[test]
fn test_tsa_basic_constraints_rejects_duplicate_extensions() {
    let non_ca = || extension("2.5.29.19", true, &[0x30, 0x00]);
    assert!(require_not_ca(&with_extensions(vec![non_ca()])).is_ok());
    assert!(matches!(
        require_not_ca(&with_extensions(vec![non_ca(), non_ca()])),
        Err(TspError::VerificationFailed(fault)) if fault.message().contains("duplicate")
    ));
}

#[test]
fn test_ess_v1_v2_bind_hash_issuer_and_serial_and_require_signed_attribute() {
    let cert = tsa_cert();
    let hash = [0x4A; 32];
    let token = build_signed_token(&cert, &tsa_key(), &[], &hash, 7, false);
    for attributes in [
        vec![ess_attribute(&cert, false, None, true)],
        vec![ess_attribute(&cert, true, None, false)],
        vec![ess_attribute(&cert, true, Some(DigestAlgorithm::Sha384), true)],
        vec![ess_attribute(&cert, false, None, true), ess_attribute(&cert, true, None, true)],
    ] {
        let fixture = rewrite_signed_fixture(&token, Some(attributes), None);
        verify(&fixture, &hash, Some(7), &[]).unwrap();
    }
    let mut other_serial = cert.clone();
    other_serial.tbs_certificate.serial_number = SerialNumber::new(&[99]).unwrap();
    let mut other_issuer = cert.clone();
    other_issuer.tbs_certificate.issuer = "CN=Other Issuer".parse().unwrap();
    for invalid in [
        vec![],
        vec![ess_attribute(&other_serial, true, None, true)],
        vec![ess_attribute(&other_issuer, true, None, true)],
        vec![
            ess_attribute(&cert, false, None, false),
            ess_attribute(&other_serial, true, None, false),
        ],
        vec![
            ess_attribute(&cert, true, None, false),
            ess_attribute(&other_serial, true, None, false),
        ],
    ] {
        let fixture = rewrite_signed_fixture(&token, Some(invalid), None);
        assert!(verify(&fixture, &hash, Some(7), &[]).is_err());
    }
    // Isolate issuer/serial matching independently of the certificate hash.
    let value = ess_attribute(&cert, true, None, true);
    let encoded = value.values.iter().next().unwrap().to_der().unwrap();
    let cert = lib(&cert);
    let mut binding = parse_ess_binding(&encoded, true).unwrap();
    assert!(binding.matches(&cert).unwrap());
    binding.issuer_serial.as_mut().unwrap().1 = lib(&other_serial).serial_number;
    assert!(!binding.matches(&cert).unwrap());
    binding.issuer_serial.as_mut().unwrap().0 = lib(&other_issuer).issuer;
    binding.issuer_serial.as_mut().unwrap().1 = cert.serial_number.clone();
    assert!(!binding.matches(&cert).unwrap());
}

#[test]
fn a_binding_is_to_one_hash() {
    let cert = lib(&tsa_cert());
    let hash = DigestAlgorithm::Sha512.digest(&cert.der).unwrap();
    let mut binding = EssBinding {
        digest: HashAlgorithm::Digest(DigestAlgorithm::Sha512),
        hash,
        issuer_serial: None,
    };
    assert!(binding.matches(&cert).unwrap());
    binding.hash[0] ^= 1;
    assert!(!binding.matches(&cert).unwrap());
}

#[test]
fn only_version_one_binds_by_sha1() {
    let sha1 = encode_sequence_raw(&encode_tlv(0x06, &[0x2B, 0x0E, 0x03, 0x02, 0x1A]));
    let hash = encode_tlv(0x04, &[0x11; 20]);
    let value = |id: &[u8]| encode_sequence_raw(&encode_sequence_raw(&encode_sequence_raw(id)));
    assert!(matches!(
        parse_ess_binding(&value(&[sha1, hash.clone()].concat()), true),
        Err(TspError::InvalidResponse(fault))
            if fault.message().contains("unsupported hash algorithm")
    ));
    let binding = parse_ess_binding(&value(&hash), false).unwrap();
    assert_eq!(binding.digest, HashAlgorithm::Sha1);
    assert!(parse_ess_binding(&value(&hash), true).is_err());
    let sha3 = digest_algorithm_identifier(DigestAlgorithm::Sha3_384);
    let named = [sha3, encode_tlv(0x04, &[0x11; 48])].concat();
    assert_eq!(
        parse_ess_binding(&value(&named), true).unwrap().digest,
        HashAlgorithm::Digest(DigestAlgorithm::Sha3_384)
    );
}

#[test]
fn basic_constraints_are_read_as_they_stand() {
    for (value, accepted) in [
        (vec![0x30, 0x00], true),
        (vec![0x30, 0x03, 0x01, 0x01, 0x00], true),
        (vec![0x30, 0x03, 0x01, 0x01, 0xFF], false),
        (vec![0x30, 0x03, 0x02, 0x01, 0x7F], true),
        (vec![0x30, 0x04, 0x02, 0x02, 0x00, 0xFF], true),
        (vec![0x30, 0x04, 0x02, 0x02, 0x01, 0x00], false),
        (vec![0x30, 0x03, 0x02, 0x01, 0xFF], false),
        (vec![0x30, 0x02, 0x05, 0x00], false),
        (vec![0x30, 0x05, 0x02, 0x01, 0x00, 0x05, 0x00], false),
        (vec![0x30, 0x00, 0x00], false),
        (vec![0x31, 0x00], false),
    ] {
        let cert = with_extensions(vec![extension("2.5.29.19", true, &value)]);
        assert_eq!(require_not_ca(&cert).is_ok(), accepted, "{value:?}");
    }
}

#[test]
fn content_must_be_an_octet_string() {
    let hash = vec![0x21u8; 32];
    let token = build_signed_token(&tsa_cert(), &tsa_key(), &[], &hash, 5, false);
    assert!(verify(&token, &hash, None, &[]).is_ok());
    let mut sd = opened(&token);
    let content = sd.encap_content_info.econtent.as_ref().unwrap().value().to_vec();
    sd.encap_content_info.econtent = Some(Any::new(Tag::Utf8String, content).unwrap());
    let other = wrap_signed_data(&sd);
    for result in [verify(&other, &hash, None, &[]), extract_tst_info(&other)] {
        assert!(matches!(
            result,
            Err(TspError::InvalidResponse(fault))
                if fault.message() == "expected OCTET STRING 0x04 for eContent, got 0x0c"
        ));
    }
}

#[test]
fn extraction_reads_the_encapsulated_content_alone() {
    let hash = vec![0x22u8; 32];
    let token = build_signed_token(&tsa_cert(), &tsa_key(), &[intermediate_cert()], &hash, 6, false);
    let forged = build_signed_token(&tsa_cert(), &tsa_key(), &[], &hash, 6, true);
    let mut sd = opened(&token);
    sd.certificates = None;
    let bare = wrap_signed_data(&sd);
    for other in [&forged, &bare] {
        assert!(verify(other, &hash, None, &[]).is_err());
        let (a, b) = (extract_tst_info(&token).unwrap(), extract_tst_info(other).unwrap());
        assert_eq!(a.message_hash, b.message_hash);
        assert_eq!(a.serial_number, b.serial_number);
        assert_eq!(a.gen_time_der, b.gen_time_der);
        assert_eq!(a.nonce, b.nonce);
        assert_eq!(a.policy_oid, b.policy_oid);
    }
}

#[test]
fn test_ess_rejects_unsupported_restrictions_and_malformed_fields() {
    let id = encode_sequence_raw(&encode_tlv(0x04, &[0x11; 32]));
    let certs = encode_sequence_raw(&id);
    assert!(parse_ess_binding(&encode_sequence_raw(&certs), true).is_ok());
    for value in [
        encode_sequence_raw(&encode_sequence_raw(&[])),
        encode_sequence_raw(&encode_sequence_from_parts(&[&id, &id])),
        encode_sequence_from_parts(&[&certs, &[0x30, 0x00]]),
        encode_sequence_raw(&encode_sequence_raw(&encode_sequence_raw(&encode_tlv(
            0x04,
            &[0x11; 31],
        )))),
    ] {
        assert!(parse_ess_binding(&value, true).is_err());
    }
}

#[test]
fn test_timestamp_key_usage_and_eku_must_both_permit_signing() {
    let hash = [0x4E; 32];
    for (value, allowed) in [
        (vec![0x03, 0x02, 0x00, 0x80], true),
        (vec![0x03, 0x02, 0x00, 0x40], true),
        (vec![0x03, 0x02, 0x00, 0x20], false),
        (vec![0x03, 0x02, 0x01, 0x81], false),
        (vec![0x03, 0x02, 0x00, 0x00], false),
        (vec![0x03, 0x02, 0x00, 0x80, 0x05, 0x00], false),
    ] {
        for critical in [true, false] {
            let mut cert = tsa_cert();
            let extensions = cert.tbs_certificate.extensions.as_mut().unwrap();
            extensions.retain(|e| e.extn_id.to_string() != "2.5.29.15");
            extensions.push(extension("2.5.29.15", critical, &value));
            let token = build_signed_token(&cert, &tsa_key(), &[], &hash, 11, false);
            assert_eq!(verify(&token, &hash, Some(11), &[]).is_ok(), allowed);
        }
    }
}

#[test]
fn test_ess_selects_exact_certificate_and_rejects_unsigned_binding() {
    let cert = tsa_cert();
    let hash = [0x4D; 32];
    let token = build_signed_token(&cert, &tsa_key(), &[], &hash, 10, false);
    let mut sd = opened(&token);
    let mut substituted = cert.clone();
    substituted.signature = BitString::from_bytes(&[0x11; 256]).unwrap();
    sd.certificates = Some(CertificateSet::from(
        SetOfVec::try_from(vec![CertificateChoices::Certificate(substituted)]).unwrap(),
    ));
    let token = wrap_signed_data(&sd);
    assert!(verify(&token, &hash, Some(10), &[]).is_err());
    // The out-of-band original has identical TBS but distinct full DER.
    verify(&token, &hash, Some(10), &[lib(&cert)]).unwrap();
    let mut si = sd.signer_infos.0.iter().next().unwrap().clone();
    si.unsigned_attrs =
        Some(SetOfVec::try_from(vec![ess_attribute(&cert, true, None, false)]).unwrap());
    sd.signer_infos = SignerInfos::from(SetOfVec::try_from(vec![si]).unwrap());
    let err = verify(&wrap_signed_data(&sd), &hash, Some(10), &[lib(&cert)]).unwrap_err();
    assert!(err.message().contains("must be signed"));
}

#[test]
fn test_authenticated_tsa_must_match_signer_subject_or_san() {
    let hash = [0x4B; 32];
    let cert = tsa_cert();
    let token = build_signed_token(&cert, &tsa_key(), &[], &hash, 8, false);
    let subject = encode_tlv(0xA4, &cert.tbs_certificate.subject.to_der().unwrap());
    let valid = rewrite_signed_fixture(&token, None, Some(&subject));
    verify(&valid, &hash, Some(8), &[]).unwrap();
    for name in [encode_tlv(0x82, b"other.example"), vec![0xA3, 0x02, 0x30, 0x00]] {
        let invalid = rewrite_signed_fixture(&token, None, Some(&name));
        assert!(verify(&invalid, &hash, Some(8), &[]).is_err());
    }
    let mut cert = cert;
    let dns = encode_tlv(0x82, b"TSA.example");
    cert.tbs_certificate
        .extensions
        .as_mut()
        .unwrap()
        .push(extension("2.5.29.17", false, &encode_sequence_raw(&dns)));
    let token = build_signed_token(&cert, &tsa_key(), &[], &hash, 8, false);
    let valid = rewrite_signed_fixture(&token, None, Some(&encode_tlv(0x82, b"tsa.example")));
    verify(&valid, &hash, Some(8), &[]).unwrap();
}

#[test]
fn test_fractional_gen_time_and_exact_validity_end_boundary() {
    let cert = tsa_cert();
    let hash = [0x4C; 32];
    let fraction = [&GEN_TIME[..14], b".123456789123Z"].concat();
    let token = build_signed_token_gt(&cert, &tsa_key(), &[], &hash, 9, &fraction, true, false);
    let parsed = verify(&token, &hash, Some(9), &[]).unwrap();
    assert_eq!(parsed.gen_time_der, fraction);
    // The certificate ends with the first second of 2035.
    for (time, allowed) in [(b"20350101000000Z".as_slice(), true), (b"20350101000000.1Z", false)] {
        let token = build_signed_token_gt(&cert, &tsa_key(), &[], &hash, 9, time, true, false);
        assert_eq!(verify(&token, &hash, Some(9), &[]).is_ok(), allowed);
    }
    for invalid in [
        b"20260303120000.10Z".as_slice(),
        b"20260303120000,Z",
        b"20260303120000.Z",
        b"20260303120000.0Z",
    ] {
        let mut fields = synthetic_tst_info_fields();
        fields[4] = encode_tlv(0x18, invalid);
        let info = parse_tst_info_body(&synthetic_tst_info(&fields)).unwrap();
        assert!(gen_time_datetime(&info).is_err());
    }
}

#[test]
fn test_verify_valid_token_no_trust_store() {
    let hash = vec![0xABu8; 32];
    let nonce = 0xDEAD_BEEFu64;
    let token = build_signed_token(&tsa_cert(), &tsa_key(), &[], &hash, nonce, false);
    let tst = verify(&token, &hash, Some(nonce), &[]).expect("validly-signed token must verify");
    assert_eq!(tst.message_hash, hash);
    assert_eq!(tst.nonce, Some(nonce));
    assert_eq!(tst.policy_oid.as_deref(), Some("1.3.6.1.4.1"));
    assert_eq!(extract_tst_info(&token).unwrap().message_hash, hash);
    // The algorithm must be the one that was asked for.
    let other = verify_timestamp_token(
        &token,
        &hash,
        DigestAlgorithm::Sha3_256,
        None,
        None::<&TrustStore<fn(&TrustQuery) -> Result<(), TrustError>>>,
        None,
        &[],
    );
    assert!(matches!(
        other,
        Err(TspError::InvalidResponse(fault)) if fault.message()
            == "TSTInfo hash algorithm mismatch: expected Sha3_256, got Sha256"
    ));
    // A token with another nonce is not the one that was asked for.
    assert!(matches!(
        verify(&token, &hash, Some(nonce + 1), &[]),
        Err(TspError::InvalidResponse(fault)) if fault.message().contains("nonce mismatch")
    ));
}

/// Verifies a token against a store that trusts the test CA alone.
fn verify_with_store(
    token: &[u8],
    hash: &[u8],
    anchor: Option<&Certificate>,
    time: Option<CivilTime>,
) -> Result<TstInfo, TspError> {
    let store = TrustStore {
        policy: SignaturePolicy::strict(),
        validate: |query: &TrustQuery| match query {
            TrustQuery::Path(path) => match anchor {
                Some(anchor)
                    if path.role == CertRole::TimestampSigner
                        && path.chain.last().unwrap().der == anchor.der
                        && (path.at.year, path.at.month, path.at.day, path.at.hour)
                            == (2026, 6, 1, 12)
                        && !path.positive_fraction =>
                {
                    Ok(())
                }
                _ => Err(TrustError::Path("no path to a trusted anchor")),
            },
            TrustQuery::Names { .. } => Err(TrustError::Path("unexpected question")),
        },
    };
    verify_timestamp_token(
        token,
        hash,
        DigestAlgorithm::Sha256,
        None,
        Some(&store),
        time,
        &[],
    )
}

fn validation_time() -> CivilTime {
    CivilTime { year: 2026, month: 6, day: 1, hour: 12, minute: 30, second: 0 }
}

#[test]
fn test_verify_valid_token_with_trust_store() {
    let hash = vec![0x11u8; 32];
    // Embed the CA so that the chain reaches it.
    let token =
        build_signed_token(&tsa_cert(), &tsa_key(), &[intermediate_cert()], &hash, 7, false);
    let tst =
        verify_with_store(&token, &hash, Some(&lib(&intermediate_cert())), Some(validation_time()))
            .expect("token chaining to a trusted root must verify");
    assert_eq!(tst.message_hash, hash);
}

#[test]
fn test_trust_store_validation_time_defaults_to_gen_time() {
    // With a trust store but without a validation time, the chain must still be
    // verified, at the token's genTime.
    let hash = vec![0x88u8; 32];
    let token =
        build_signed_token(&tsa_cert(), &tsa_key(), &[intermediate_cert()], &hash, 1, false);
    verify_with_store(&token, &hash, Some(&lib(&intermediate_cert())), None)
        .expect("chain must verify at genTime when validation_time is None");
}

#[test]
fn giving_the_time_of_the_token_changes_nothing() {
    let hash = vec![0x89u8; 32];
    let token =
        build_signed_token(&tsa_cert(), &tsa_key(), &[intermediate_cert()], &hash, 1, false);
    let gen_time = CivilTime { year: 2026, month: 6, day: 1, hour: 12, minute: 0, second: 0 };
    let trusted = lib(&intermediate_cert());
    for anchor in [Some(&trusted), None] {
        let default = verify_with_store(&token, &hash, anchor, None);
        let given = verify_with_store(&token, &hash, anchor, Some(gen_time));
        match (default, given) {
            (Ok(a), Ok(b)) => assert_eq!(a.gen_time_der, b.gen_time_der),
            (Err(a), Err(b)) => {
                assert!(matches!(a, TspError::VerificationFailed(_)));
                assert_eq!(a.message(), b.message());
            }
            _ => panic!("the results differ"),
        }
    }
}

#[test]
fn test_reject_gen_time_outside_validity_without_trust_store() {
    // This must be rejected even when no trust store is supplied.
    let hash = vec![0x77u8; 32];
    let token = build_signed_token_gt(
        &tsa_cert(),
        &tsa_key(),
        &[],
        &hash,
        1,
        b"20460601120000Z",
        true,  // embed certs
        false, // valid signature
    );
    let err = verify(&token, &hash, None, &[]).unwrap_err();
    assert!(
        matches!(err, TspError::VerificationFailed(_)),
        "genTime outside TSA cert validity must be rejected, got {err:?}"
    );
}

#[test]
fn test_reject_tampered_signature() {
    let hash = vec![0x22u8; 32];
    let token = build_signed_token(&tsa_cert(), &tsa_key(), &[], &hash, 1, true);
    let err = verify(&token, &hash, None, &[]).unwrap_err();
    assert!(
        matches!(err, TspError::VerificationFailed(_)),
        "tampered signature must be rejected, got {err:?}"
    );
}

#[test]
fn test_reject_untrusted_root() {
    // Token is validly signed but the trust store does NOT contain the root.
    let hash = vec![0x33u8; 32];
    let token =
        build_signed_token(&tsa_cert(), &tsa_key(), &[intermediate_cert()], &hash, 1, false);
    let err = verify_with_store(&token, &hash, None, Some(validation_time())).unwrap_err();
    assert!(
        matches!(err, TspError::VerificationFailed(_)),
        "token not chaining to a trust anchor must be rejected, got {err:?}"
    );
}

#[test]
fn test_reject_signer_without_timestamping_eku() {
    // The signature verifies, but the cert lacks the critical id-kp-timeStamping
    // EKU, so verification must fail.
    let hash = vec![0x44u8; 32];
    let token = build_signed_token(&intermediate_cert(), &ca_key(), &[], &hash, 1, false);
    let err = verify(&token, &hash, None, &[]).unwrap_err();
    assert!(
        matches!(err, TspError::VerificationFailed(_)),
        "signer without timeStamping EKU must be rejected, got {err:?}"
    );
}

#[test]
fn test_reject_ca_signer_with_timestamping_eku() {
    // A CA certificate that also carries a critical id-kp-timeStamping EKU. The
    // signature verifies and the EKU check passes, so only the not-a-CA check can
    // reject it.
    let ca_key = key(OTHER_P, OTHER_Q);
    let ca_cert = issue(
        Profile::Root,
        0x77,
        "CN=Rogue CA TSA,O=ritsp-ltv tests",
        &ca_key,
        &ca_key,
        vec![timestamping_eku()],
    );
    let hash = vec![0x66u8; 32];
    let token = build_signed_token(&ca_cert, &ca_key, &[], &hash, 1, false);
    let err = verify(&token, &hash, None, &[]).unwrap_err();
    assert!(
        matches!(err, TspError::VerificationFailed(ref m) if m.message().contains("CA:TRUE")),
        "CA certificate must be rejected as a TSA signer, got {err:?}"
    );
}

#[test]
fn test_reject_unsigned_token_old_behavior() {
    // A token with no SignerInfo.
    let hash = vec![0x55u8; 32];
    let token = wrap_signed_data(&SignedData {
        version: CmsVersion::V3,
        digest_algorithms: SetOfVec::new(),
        encap_content_info: EncapsulatedContentInfo {
            econtent_type: ID_CT_TST_INFO,
            econtent: Some(
                Any::new(Tag::OctetString, build_tst_info(&hash, 1, GEN_TIME)).unwrap(),
            ),
        },
        certificates: None,
        crls: None,
        signer_infos: SignerInfos::from(SetOfVec::<SignerInfo>::new()),
    });
    let err = verify(&token, &hash, None, &[]).unwrap_err();
    assert!(
        matches!(err, TspError::InvalidResponse(_)),
        "unsigned token must be rejected, got {err:?}"
    );
}

#[test]
fn test_reject_garbage_token() {
    let err = verify(&[0x30, 0x03, 0x02, 0x01, 0x01], &[0u8; 32], None, &[]).unwrap_err();
    assert!(matches!(err, TspError::InvalidResponse(_)));
}

#[test]
fn test_reject_wrong_message_imprint() {
    // Validly signed, but the caller expected a different hash than the one
    // in the (authenticated) TSTInfo.
    let real_hash = vec![0x66u8; 32];
    let token = build_signed_token(&tsa_cert(), &tsa_key(), &[], &real_hash, 1, false);
    let err = verify(&token, &[0x99u8; 32], None, &[]).unwrap_err();
    assert!(matches!(err, TspError::InvalidResponse(_)));
}

/// An RSASSA-PSS AlgorithmIdentifier for SHA-256 and a salt length.
fn pss_algid(salt_len: u8) -> AlgorithmId {
    let params = rsa::pkcs1::RsaPssParams::new::<Sha256>(salt_len);
    AlgorithmId { oid: OID_RSASSA_PSS.to_vec(), parameters: Some(params.to_der().unwrap()) }
}

fn tsa_spki() -> Vec<u8> {
    rsa::RsaPublicKey::from(&tsa_key()).to_public_key_der().unwrap().as_bytes().to_vec()
}

#[test]
fn test_pss_signature_bound_to_signerinfo_digest() {
    let spki_der = tsa_spki();
    // Sign with RSA-PSS / SHA-256 using the default salt length (= 32).
    let signing = rsa::pss::SigningKey::<Sha256>::new(tsa_key());
    let msg = b"the DER-encoded signed attributes";
    let sig = signing.sign_with_rng(&mut rand::thread_rng(), msg).to_vec();
    let algid = pss_algid(32);

    // Verification bound to SHA-256 (matching SignerInfo.digestAlgorithm) succeeds.
    verify_cms_signature(msg, &sig, &spki_der, &algid, DigestAlgorithm::Sha256)
        .expect("PSS-SHA256 signature must verify when bound to SHA-256");

    // Verification bound to a different digest must NOT accept the signature.
    assert!(
        verify_cms_signature(msg, &sig, &spki_der, &algid, DigestAlgorithm::Sha384).is_err(),
        "PSS signature must be rejected when the bound digest does not match"
    );
}

#[test]
fn test_pss_signature_honours_nondefault_salt_length() {
    // PSS verification must use the saltLength from RSASSA-PSS-params, not assume
    // the default (= digest size).
    let spki_der = tsa_spki();
    // Sign with a 48-byte salt (default for SHA-256 is 32).
    let signing = rsa::pss::SigningKey::<Sha256>::new_with_salt_len(tsa_key(), 48);
    let msg = b"the DER-encoded signed attributes";
    let sig = signing.sign_with_rng(&mut rand::thread_rng(), msg).to_vec();

    // With the matching saltLength in the params, verification succeeds.
    verify_cms_signature(msg, &sig, &spki_der, &pss_algid(48), DigestAlgorithm::Sha256)
        .expect("PSS signature with non-default salt must verify when params declare it");

    // Declaring the wrong (default) salt length must fail.
    assert!(
        verify_cms_signature(msg, &sig, &spki_der, &pss_algid(32), DigestAlgorithm::Sha256)
            .is_err(),
        "PSS signature must not verify when the declared salt length is wrong"
    );
}

#[test]
fn test_pss_signature_requires_parameters() {
    // A bare RSASSA-PSS OID with no parameters is non-compliant.
    let bare = AlgorithmId { oid: OID_RSASSA_PSS.to_vec(), parameters: None };
    let err = verify_cms_signature(b"x", b"y", b"z", &bare, DigestAlgorithm::Sha256).unwrap_err();
    assert!(
        matches!(err, TrustError::UnsupportedAlgorithm(_)),
        "PSS without parameters must be rejected, got {err:?}"
    );
}

#[test]
fn test_combined_sig_algorithm_hash_must_match_digest_algorithm() {
    // A token whose signatureAlgorithm encodes a different hash than
    // SignerInfo.digestAlgorithm must be rejected.
    let spki_der = tsa_spki();
    let msg = b"the DER-encoded signed attributes";
    let sig: Signature = SigningKey::<Sha256>::new(tsa_key()).sign(msg);
    let sig = sig.to_vec();
    let algid = AlgorithmId { oid: OID_RSA_SHA256.to_vec(), parameters: None };

    // Consistent: signatureAlgorithm hash == digestAlgorithm -> verifies.
    verify_cms_signature(msg, &sig, &spki_der, &algid, DigestAlgorithm::Sha256)
        .expect("sha256WithRSA must verify when digestAlgorithm is SHA-256");

    // Inconsistent: digestAlgorithm = SHA-512 but signatureAlgorithm encodes SHA-256.
    let err = verify_cms_signature(msg, &sig, &spki_der, &algid, DigestAlgorithm::Sha512)
        .unwrap_err();
    assert!(
        err.message().starts_with("signature verification failed") && err.message().contains("disagrees"),
        "mismatched signatureAlgorithm/digestAlgorithm must be rejected, got {err:?}"
    );
}

#[test]
fn test_verify_token_without_embedded_certs_via_extra_certs() {
    // A token that omits the CMS certificates field. It cannot be verified on its
    // own, but succeeds when the signer cert is supplied out-of-band.
    let hash = vec![0xC0u8; 32];
    let token = build_signed_token_gt(
        &tsa_cert(),
        &tsa_key(),
        &[],
        &hash,
        1,
        GEN_TIME,
        false, // do NOT embed certificates
        false,
    );

    // Without the cert there is no key to check the signature; this is reported as
    // InvalidResponse (missing material), not a crypto failure.
    let err = verify(&token, &hash, None, &[]).unwrap_err();
    assert!(
        matches!(err, TspError::InvalidResponse(_)),
        "token without certs and no extra_certs must fail as InvalidResponse, got {err:?}"
    );

    // Supplying the signer cert out-of-band lets it verify.
    let tst = verify(&token, &hash, None, &[lib(&tsa_cert())])
        .expect("token must verify with externally-supplied signer cert");
    assert_eq!(tst.message_hash, hash);
}

#[test]
fn test_order_chain_prefers_legacy_valid_issuer_among_same_subject_candidates() {
    // Real issuer and a decoy sharing the same subject but a different key.
    let name = "CN=Ambiguous Issuer,O=ritsp-ltv tests";
    let (real_key, decoy_key) = (key(ROOT_P, ROOT_Q), key(OTHER_P, OTHER_Q));
    let real_issuer = issue(Profile::Root, 0x01, name, &real_key, &real_key, vec![]);
    let decoy = issue(Profile::Root, 0x02, name, &decoy_key, &decoy_key, vec![]);

    // Leaf issued by the real issuer, re-signed with SHA-1.
    let base = issue(
        leaf_profile(&real_issuer),
        0x03,
        "CN=Ambiguous Leaf,O=ritsp-ltv tests",
        &leaf_key(),
        &real_key,
        vec![],
    );
    let sha1_algid = AlgorithmIdentifierOwned {
        oid: ObjectIdentifier::new_unwrap("1.2.840.113549.1.1.5"),
        parameters: Some(Any::null()),
    };
    let mut tbs = base.tbs_certificate.clone();
    tbs.signature = sha1_algid.clone();
    let digest = Sha1::digest(tbs.to_der().unwrap());
    let sig = real_key.sign(Pkcs1v15Sign::new::<Sha1>(), &digest).expect("SHA-1 RSA sign");
    let leaf = X509 {
        tbs_certificate: tbs,
        signature_algorithm: sha1_algid,
        signature: BitString::from_bytes(&sig).unwrap(),
    };

    // Decoy first, so the strict fallback (first name match) picks it.
    let embedded = [lib(&decoy), lib(&real_issuer)];

    // Strict: the SHA-1 link can't be verified, so order_chain falls back to the
    // first same-subject match — the wrong (decoy) cert.
    let strict = order_chain(&lib(&leaf), &embedded, SignaturePolicy::strict());
    assert_eq!(strict.len(), 2);
    assert_eq!(
        strict[1].spki,
        lib(&decoy).spki,
        "strict precheck falls back to the wrong same-subject cert"
    );

    // allow_legacy: order_chain prefers the cryptographically-correct issuer.
    let legacy = order_chain(&lib(&leaf), &embedded, SignaturePolicy::allow_legacy());
    assert_eq!(legacy.len(), 2);
    assert_eq!(
        legacy[1].spki,
        lib(&real_issuer).spki,
        "allow_legacy prefers the issuer whose key actually signed the leaf"
    );
}

#[test]
fn responses_are_validated_against_the_request() {
    let hash = vec![0x31u8; 32];
    let token = build_signed_token(&tsa_cert(), &tsa_key(), &[], &hash, 5, false);
    let response = |status: PkiStatus, token: Option<&[u8]>| TimeStampResp {
        status,
        status_string: Some("text".to_string()),
        failure_info: None,
        token_der: token.map(<[u8]>::to_vec),
    };
    let granted = response(PkiStatus::Granted, Some(&token));
    let validated =
        validate_timestamp_response(&granted, &hash, Some(5), DigestAlgorithm::Sha256, &[]);
    assert_eq!(validated.unwrap(), token);
    assert!(
        validate_timestamp_response(&granted, &hash, Some(6), DigestAlgorithm::Sha256, &[])
            .is_err()
    );
    assert!(matches!(
        validate_timestamp_response(
            &response(PkiStatus::Rejection, None),
            &hash,
            None,
            DigestAlgorithm::Sha256,
            &[]
        ),
        Err(TspError::TsaError { status: PkiStatus::Rejection, .. })
    ));
    assert!(matches!(
        validate_timestamp_response(
            &response(PkiStatus::Granted, None),
            &hash,
            None,
            DigestAlgorithm::Sha256,
            &[]
        ),
        Err(TspError::InvalidResponse(_))
    ));
    for (body, allowed) in [(vec![0x2B, 0x06, 0x01, 0x04, 0x01], true), (vec![0x2A, 0x03, 0x04], false)] {
        let policy = Oid::from_bytes(&body).unwrap();
        assert_eq!(
            validate_timestamp_response_for_policy(
                &granted,
                &hash,
                Some(5),
                DigestAlgorithm::Sha256,
                &[],
                Some(&policy),
            )
            .is_ok(),
            allowed
        );
    }
}

#[test]
fn a_verdict_decides_about_a_token() {
    let info = || parse_tst_info_body(&synthetic_tst_info(&synthetic_tst_info_fields())).unwrap();
    assert_eq!(conclude_token(info(), Ok(())).unwrap().message_hash, vec![0xAA; 32]);
    assert!(matches!(
        conclude_token(info(), Err(TrustError::Path("untrusted"))),
        Err(TspError::VerificationFailed(fault)) if fault.message().contains("untrusted")
    ));
}

#[test]
fn signers_are_named_by_issuer_and_serial_or_by_key() {
    let cert = tsa_cert();
    let held = lib(&cert);
    let by_issuer = SignerId::IssuerAndSerial(held.issuer.clone(), held.serial_number.clone());
    assert!(signer_identifier_matches(&by_issuer, &held));
    assert!(!signer_identifier_matches(&by_issuer, &lib(&intermediate_cert())));
    let key_id = cert
        .tbs_certificate
        .extensions
        .as_ref()
        .unwrap()
        .iter()
        .find(|e| e.extn_id.to_string() == "2.5.29.14")
        .map(|e| parse_tlv(e.extn_value.as_bytes()).unwrap().1)
        .unwrap();
    assert!(signer_identifier_matches(&SignerId::KeyId(key_id), &held));
    assert!(!signer_identifier_matches(&SignerId::KeyId(vec![1, 2, 3]), &held));
}
