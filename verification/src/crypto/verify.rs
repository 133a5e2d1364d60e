//! Signature checks and the policy on weak hashes.

use riptering::{EcCurve, KeyAlgorithm, SignatureAlgorithm, SoftwareKey, SoftwareVerifier};
use vstd::prelude::*;

use crate::asn1::{decode_algorithm_id, decode_u64, AlgorithmId};
use crate::bytes::bytes_equal;
use crate::cert::Certificate;
use crate::crypto::algorithm::DigestAlgorithm;
use crate::der_utils::parse_tlv_with_rest;
use crate::error::TrustError;
#[allow(unused_imports)]
use crate::asn1::{algorithm_id_of, uint_within, AlgorithmIdView};
#[allow(unused_imports)]
use crate::cert::CertificateView;
#[allow(unused_imports)]
use crate::crypto::algorithm::digest_from_oid;
#[allow(unused_imports)]
use crate::der_utils::tlv;
#[allow(unused_imports)]
use crate::opt_view;

verus! {

/// rsaEncryption.
pub const OID_RSA_ENCRYPTION: [u8; 9] = [0x2A, 0x86, 0x48, 0x86, 0xF7, 0x0D, 0x01, 0x01, 0x01];

/// sha1WithRSAEncryption.
pub const OID_RSA_SHA1: [u8; 9] = [0x2A, 0x86, 0x48, 0x86, 0xF7, 0x0D, 0x01, 0x01, 0x05];

/// id-mgf1.
pub const OID_MGF1: [u8; 9] = [0x2A, 0x86, 0x48, 0x86, 0xF7, 0x0D, 0x01, 0x01, 0x08];

/// id-RSASSA-PSS.
pub const OID_RSASSA_PSS: [u8; 9] = [0x2A, 0x86, 0x48, 0x86, 0xF7, 0x0D, 0x01, 0x01, 0x0A];

/// sha256WithRSAEncryption.
pub const OID_RSA_SHA256: [u8; 9] = [0x2A, 0x86, 0x48, 0x86, 0xF7, 0x0D, 0x01, 0x01, 0x0B];

/// sha384WithRSAEncryption.
pub const OID_RSA_SHA384: [u8; 9] = [0x2A, 0x86, 0x48, 0x86, 0xF7, 0x0D, 0x01, 0x01, 0x0C];

/// sha512WithRSAEncryption.
pub const OID_RSA_SHA512: [u8; 9] = [0x2A, 0x86, 0x48, 0x86, 0xF7, 0x0D, 0x01, 0x01, 0x0D];

/// sha224WithRSAEncryption.
pub const OID_RSA_SHA224: [u8; 9] = [0x2A, 0x86, 0x48, 0x86, 0xF7, 0x0D, 0x01, 0x01, 0x0E];

/// id-ecPublicKey.
pub const OID_EC_PUBLIC_KEY: [u8; 7] = [0x2A, 0x86, 0x48, 0xCE, 0x3D, 0x02, 0x01];

/// ecdsa-with-SHA1.
pub const OID_ECDSA_SHA1: [u8; 7] = [0x2A, 0x86, 0x48, 0xCE, 0x3D, 0x04, 0x01];

/// ecdsa-with-SHA224.
pub const OID_ECDSA_SHA224: [u8; 8] = [0x2A, 0x86, 0x48, 0xCE, 0x3D, 0x04, 0x03, 0x01];

/// ecdsa-with-SHA256.
pub const OID_ECDSA_SHA256: [u8; 8] = [0x2A, 0x86, 0x48, 0xCE, 0x3D, 0x04, 0x03, 0x02];

/// ecdsa-with-SHA384.
pub const OID_ECDSA_SHA384: [u8; 8] = [0x2A, 0x86, 0x48, 0xCE, 0x3D, 0x04, 0x03, 0x03];

/// ecdsa-with-SHA512.
pub const OID_ECDSA_SHA512: [u8; 8] = [0x2A, 0x86, 0x48, 0xCE, 0x3D, 0x04, 0x03, 0x04];

/// id-Ed25519.
pub const OID_ED25519: [u8; 3] = [0x2B, 0x65, 0x70];

/// secp256r1.
pub const OID_P256: [u8; 8] = [0x2A, 0x86, 0x48, 0xCE, 0x3D, 0x03, 0x01, 0x07];

/// secp384r1.
pub const OID_P384: [u8; 5] = [0x2B, 0x81, 0x04, 0x00, 0x22];

/// secp521r1.
pub const OID_P521: [u8; 5] = [0x2B, 0x81, 0x04, 0x00, 0x23];

/// Which signature hashes are admitted.
#[derive(Debug, Clone, Copy, PartialEq, Eq, Structural)]
pub struct SignaturePolicy {
    legacy: bool,
}

impl SignaturePolicy {
    /// Whether SHA-1 and SHA-224 signatures are admitted.
    pub closed spec fn legacy(self) -> bool {
        self.legacy
    }

    /// Admits SHA-2 signatures of 256 bits and more only.
    pub fn strict() -> (r: SignaturePolicy)
        ensures
            !r.legacy(),
    {
        SignaturePolicy { legacy: false }
    }

    /// Admits SHA-1 and SHA-224 signatures too.
    pub fn allow_legacy() -> (r: SignaturePolicy)
        ensures
            r.legacy(),
    {
        SignaturePolicy { legacy: true }
    }

    /// Whether SHA-1 and SHA-224 signatures are admitted.
    pub fn legacy_allowed(&self) -> (r: bool)
        ensures
            r == self.legacy(),
    {
        self.legacy
    }
}

impl Default for SignaturePolicy {
    fn default() -> (r: SignaturePolicy)
        ensures
            !r.legacy(),
    {
        SignaturePolicy::strict()
    }
}

/// The hash inside a signature algorithm.
#[derive(Debug, Clone, Copy, PartialEq, Eq, Structural)]
pub enum SignatureHash {
    Sha1,
    Sha224,
    Sha256,
    Sha384,
    Sha512,
}

/// A signature algorithm whose identifier fixes its hash.
#[derive(Debug, Clone, Copy, PartialEq, Eq, Structural)]
pub enum SignatureScheme {
    /// RSA with PKCS #1 v1.5 padding.
    Rsa(SignatureHash),
    /// ECDSA.
    Ecdsa(SignatureHash),
    /// Ed25519, which has no hash to choose.
    Ed25519,
}

/// A named elliptic curve.
#[derive(Debug, Clone, Copy, PartialEq, Eq, Structural)]
pub enum Curve {
    P256,
    P384,
    P521,
}

/// The signature algorithm that an object identifier body names.
pub open spec fn scheme_of(oid: Seq<u8>) -> Option<SignatureScheme> {
    if oid == OID_RSA_SHA256@ {
        Some(SignatureScheme::Rsa(SignatureHash::Sha256))
    } else if oid == OID_RSA_SHA384@ {
        Some(SignatureScheme::Rsa(SignatureHash::Sha384))
    } else if oid == OID_RSA_SHA512@ {
        Some(SignatureScheme::Rsa(SignatureHash::Sha512))
    } else if oid == OID_RSA_SHA1@ {
        Some(SignatureScheme::Rsa(SignatureHash::Sha1))
    } else if oid == OID_RSA_SHA224@ {
        Some(SignatureScheme::Rsa(SignatureHash::Sha224))
    } else if oid == OID_ECDSA_SHA256@ {
        Some(SignatureScheme::Ecdsa(SignatureHash::Sha256))
    } else if oid == OID_ECDSA_SHA384@ {
        Some(SignatureScheme::Ecdsa(SignatureHash::Sha384))
    } else if oid == OID_ECDSA_SHA512@ {
        Some(SignatureScheme::Ecdsa(SignatureHash::Sha512))
    } else if oid == OID_ECDSA_SHA1@ {
        Some(SignatureScheme::Ecdsa(SignatureHash::Sha1))
    } else if oid == OID_ECDSA_SHA224@ {
        Some(SignatureScheme::Ecdsa(SignatureHash::Sha224))
    } else if oid == OID_ED25519@ {
        Some(SignatureScheme::Ed25519)
    } else {
        None
    }
}

fn find_scheme(oid: &[u8]) -> (r: Option<SignatureScheme>)
    ensures
        r == scheme_of(oid@),
{
    if bytes_equal(oid, OID_RSA_SHA256.as_slice()) {
        Some(SignatureScheme::Rsa(SignatureHash::Sha256))
    } else if bytes_equal(oid, OID_RSA_SHA384.as_slice()) {
        Some(SignatureScheme::Rsa(SignatureHash::Sha384))
    } else if bytes_equal(oid, OID_RSA_SHA512.as_slice()) {
        Some(SignatureScheme::Rsa(SignatureHash::Sha512))
    } else if bytes_equal(oid, OID_RSA_SHA1.as_slice()) {
        Some(SignatureScheme::Rsa(SignatureHash::Sha1))
    } else if bytes_equal(oid, OID_RSA_SHA224.as_slice()) {
        Some(SignatureScheme::Rsa(SignatureHash::Sha224))
    } else if bytes_equal(oid, OID_ECDSA_SHA256.as_slice()) {
        Some(SignatureScheme::Ecdsa(SignatureHash::Sha256))
    } else if bytes_equal(oid, OID_ECDSA_SHA384.as_slice()) {
        Some(SignatureScheme::Ecdsa(SignatureHash::Sha384))
    } else if bytes_equal(oid, OID_ECDSA_SHA512.as_slice()) {
        Some(SignatureScheme::Ecdsa(SignatureHash::Sha512))
    } else if bytes_equal(oid, OID_ECDSA_SHA1.as_slice()) {
        Some(SignatureScheme::Ecdsa(SignatureHash::Sha1))
    } else if bytes_equal(oid, OID_ECDSA_SHA224.as_slice()) {
        Some(SignatureScheme::Ecdsa(SignatureHash::Sha224))
    } else if bytes_equal(oid, OID_ED25519.as_slice()) {
        Some(SignatureScheme::Ed25519)
    } else {
        None
    }
}

/// The body of the element at the start of `s`, where it carries `tag`, and what
/// follows it.
pub open spec fn tagged(s: Seq<u8>, tag: u8) -> Option<(Seq<u8>, Seq<u8>)> {
    match tlv(s) {
        Ok((t, body, rest)) => if t == tag { Some((body, rest)) } else { None },
        Err(_) => None,
    }
}

fn read_tagged<'a>(s: &'a [u8], tag: u8) -> (r: Option<(&'a [u8], &'a [u8])>)
    ensures
        crate::agrees_opt(r, tagged(s@, tag)),
{
    match parse_tlv_with_rest(s) {
        Ok((t, body, rest)) => if t == tag { Some((body, rest)) } else { None },
        Err(_) => None,
    }
}

/// The curve that a SubjectPublicKeyInfo names.
pub open spec fn curve_of(spki: Seq<u8>) -> Option<Curve> {
    match tagged(spki, 0x30) {
        None => None,
        Some((info, _)) => match tagged(info, 0x30) {
            None => None,
            Some((alg, _)) => match tagged(alg, 0x06) {
                None => None,
                Some((_, parameters)) => match tagged(parameters, 0x06) {
                    None => None,
                    Some((name, _)) => if name == OID_P256@ {
                        Some(Curve::P256)
                    } else if name == OID_P384@ {
                        Some(Curve::P384)
                    } else if name == OID_P521@ {
                        Some(Curve::P521)
                    } else {
                        None
                    },
                },
            },
        },
    }
}

fn find_curve(spki: &[u8]) -> (r: Option<Curve>)
    ensures
        r == curve_of(spki@),
{
    let (info, _) = read_tagged(spki, 0x30)?;
    let (alg, _) = read_tagged(info, 0x30)?;
    let (_, parameters) = read_tagged(alg, 0x06)?;
    let (name, _) = read_tagged(parameters, 0x06)?;
    if bytes_equal(name, OID_P256.as_slice()) {
        Some(Curve::P256)
    } else if bytes_equal(name, OID_P384.as_slice()) {
        Some(Curve::P384)
    } else if bytes_equal(name, OID_P521.as_slice()) {
        Some(Curve::P521)
    } else {
        None
    }
}

/// What `riptering` says of an RSA signature with PKCS #1 v1.5 padding; none
/// where it cannot use the key or the signature.
pub uninterp spec fn rsa_verdict(
    hash: SignatureHash,
    spki: Seq<u8>,
    data: Seq<u8>,
    signature: Seq<u8>,
) -> Option<bool>;

/// Calls `riptering::SoftwareVerifier::verify_der_signature` for RSA with PKCS #1
/// v1.5 padding. Claimed: the verdict depends on the arguments alone.
#[verifier::external_body]
fn check_rsa(hash: SignatureHash, spki: &[u8], data: &[u8], signature: &[u8]) -> (r: Option<bool>)
    ensures
        r == rsa_verdict(hash, spki@, data@, signature@),
{
    let hash = match hash {
        SignatureHash::Sha1 => riptering::HashAlgorithm::Sha1,
        SignatureHash::Sha224 => riptering::HashAlgorithm::Sha224,
        SignatureHash::Sha256 => riptering::HashAlgorithm::Sha256,
        SignatureHash::Sha384 => riptering::HashAlgorithm::Sha384,
        SignatureHash::Sha512 => riptering::HashAlgorithm::Sha512,
    };
    let key = SoftwareKey::from_spki_der(KeyAlgorithm::Rsa, spki).ok()?;
    let verifier = SoftwareVerifier::new(SignatureAlgorithm::RsaPkcs1v15(hash), key).ok()?;
    verifier.verify_der_signature(data, signature).ok()
}

/// What `riptering` says of an ECDSA signature; none where it cannot use the key
/// or the signature.
pub uninterp spec fn ecdsa_verdict(
    curve: Curve,
    hash: SignatureHash,
    spki: Seq<u8>,
    data: Seq<u8>,
    signature: Seq<u8>,
) -> Option<bool>;

/// Calls `riptering::SoftwareVerifier::verify_der_signature` for ECDSA. Claimed:
/// the verdict depends on the arguments alone.
#[verifier::external_body]
fn check_ecdsa(
    curve: Curve,
    hash: SignatureHash,
    spki: &[u8],
    data: &[u8],
    signature: &[u8],
) -> (r: Option<bool>)
    ensures
        r == ecdsa_verdict(curve, hash, spki@, data@, signature@),
{
    let hash = match hash {
        SignatureHash::Sha1 => riptering::HashAlgorithm::Sha1,
        SignatureHash::Sha224 => riptering::HashAlgorithm::Sha224,
        SignatureHash::Sha256 => riptering::HashAlgorithm::Sha256,
        SignatureHash::Sha384 => riptering::HashAlgorithm::Sha384,
        SignatureHash::Sha512 => riptering::HashAlgorithm::Sha512,
    };
    let curve = match curve { Curve::P256 => EcCurve::P256, Curve::P384 => EcCurve::P384, Curve::P521 => EcCurve::P521 };
    let key = SoftwareKey::from_spki_der(KeyAlgorithm::Ec(curve), spki).ok()?;
    let verifier = SoftwareVerifier::new(SignatureAlgorithm::Ecdsa(curve, hash), key).ok()?;
    verifier.verify_der_signature(data, signature).ok()
}

/// What `riptering` says of an Ed25519 signature; none where it cannot use the key
/// or the signature.
pub uninterp spec fn ed25519_verdict(
    spki: Seq<u8>,
    data: Seq<u8>,
    signature: Seq<u8>,
) -> Option<bool>;

/// Calls `riptering::SoftwareVerifier::verify_der_signature` for Ed25519. Claimed:
/// the verdict depends on the arguments alone.
#[verifier::external_body]
fn check_ed25519(spki: &[u8], data: &[u8], signature: &[u8]) -> (r: Option<bool>)
    ensures
        r == ed25519_verdict(spki@, data@, signature@),
{
    let key = SoftwareKey::from_spki_der(KeyAlgorithm::Ed25519, spki).ok()?;
    let verifier = SoftwareVerifier::new(SignatureAlgorithm::Ed25519, key).ok()?;
    verifier.verify_der_signature(data, signature).ok()
}

/// What `riptering` says of an RSASSA-PSS signature; none where it cannot use the
/// key or the signature.
pub uninterp spec fn pss_verdict(
    hash: DigestAlgorithm,
    salt_length: usize,
    spki: Seq<u8>,
    data: Seq<u8>,
    signature: Seq<u8>,
) -> Option<bool>;

/// Calls `riptering::SoftwareVerifier::verify_der_signature` for RSASSA-PSS with a
/// salt length. Claimed: the verdict depends on the arguments alone.
#[verifier::external_body]
fn check_pss(
    hash: DigestAlgorithm,
    salt_length: usize,
    spki: &[u8],
    data: &[u8],
    signature: &[u8],
) -> (r: Option<bool>)
    ensures
        r == pss_verdict(hash, salt_length, spki@, data@, signature@),
{
    let hash = match hash {
        DigestAlgorithm::Sha256 => riptering::HashAlgorithm::Sha256,
        DigestAlgorithm::Sha384 => riptering::HashAlgorithm::Sha384,
        DigestAlgorithm::Sha512 => riptering::HashAlgorithm::Sha512,
        DigestAlgorithm::Sha3_256 => riptering::HashAlgorithm::Sha3_256,
        DigestAlgorithm::Sha3_384 => riptering::HashAlgorithm::Sha3_384,
        DigestAlgorithm::Sha3_512 => riptering::HashAlgorithm::Sha3_512,
    };
    let key = SoftwareKey::from_spki_der(KeyAlgorithm::Rsa, spki).ok()?;
    let verifier = SoftwareVerifier::new_rsa_pss_with_salt(hash, salt_length, key).ok()?;
    verifier.verify_der_signature(data, signature).ok()
}

/// The outcome of a signature check with a given verdict.
pub open spec fn verdict_result(verdict: Option<bool>) -> Result<(), TrustError> {
    if verdict == Some(true) {
        Ok(())
    } else {
        Err(TrustError::SignatureVerification("invalid signature"))
    }
}

fn conclude(verdict: Option<bool>) -> (r: Result<(), TrustError>)
    ensures
        r == verdict_result(verdict),
{
    match verdict {
        Some(true) => Ok(()),
        _ => Err(TrustError::SignatureVerification("invalid signature")),
    }
}

/// A signature algorithm has a weak hash.
pub open spec fn is_weak(scheme: SignatureScheme) -> bool {
    match scheme {
        SignatureScheme::Rsa(h) => h is Sha1 || h is Sha224,
        SignatureScheme::Ecdsa(h) => h is Sha1 || h is Sha224,
        SignatureScheme::Ed25519 => false,
    }
}

/// The check of a signature whose algorithm identifier fixes its hash.
pub open spec fn signature_by_oid(
    data: Seq<u8>,
    signature: Seq<u8>,
    spki: Seq<u8>,
    oid: Seq<u8>,
    legacy: bool,
) -> Result<(), TrustError> {
    match scheme_of(oid) {
        None => Err(TrustError::UnsupportedAlgorithm("signature algorithm")),
        Some(scheme) => if !legacy && is_weak(scheme) {
            Err(TrustError::UnsupportedAlgorithm("signature hash is not admitted by the policy"))
        } else {
            match scheme {
                SignatureScheme::Rsa(h) => verdict_result(rsa_verdict(h, spki, data, signature)),
                SignatureScheme::Ecdsa(h) => match curve_of(spki) {
                    None => Err(TrustError::UnsupportedAlgorithm("elliptic curve")),
                    Some(curve) => verdict_result(ecdsa_verdict(curve, h, spki, data, signature)),
                },
                SignatureScheme::Ed25519 => verdict_result(ed25519_verdict(spki, data, signature)),
            }
        },
    }
}

fn verify_by_oid(data: &[u8], signature: &[u8], spki: &[u8], oid: &[u8], legacy: bool) -> (r:
    Result<(), TrustError>)
    ensures
        r == signature_by_oid(data@, signature@, spki@, oid@, legacy),
{
    let scheme = match find_scheme(oid) {
        None => return Err(TrustError::UnsupportedAlgorithm("signature algorithm")),
        Some(s) => s,
    };
    let weak: bool = match scheme {
        SignatureScheme::Rsa(h) => h == SignatureHash::Sha1 || h == SignatureHash::Sha224,
        SignatureScheme::Ecdsa(h) => h == SignatureHash::Sha1 || h == SignatureHash::Sha224,
        SignatureScheme::Ed25519 => false,
    };
    if !legacy && weak {
        return Err(
            TrustError::UnsupportedAlgorithm("signature hash is not admitted by the policy"),
        );
    }
    match scheme {
        SignatureScheme::Rsa(h) => conclude(check_rsa(h, spki, data, signature)),
        SignatureScheme::Ecdsa(h) => match find_curve(spki) {
            None => Err(TrustError::UnsupportedAlgorithm("elliptic curve")),
            Some(curve) => conclude(check_ecdsa(curve, h, spki, data, signature)),
        },
        SignatureScheme::Ed25519 => conclude(check_ed25519(spki, data, signature)),
    }
}

/// Checks a signature whose algorithm identifier fixes its hash, under the strict
/// policy.
pub fn verify_signature_by_oid(data: &[u8], signature: &[u8], spki: &[u8], oid: &[u8]) -> (r:
    Result<(), TrustError>)
    ensures
        r == signature_by_oid(data@, signature@, spki@, oid@, false),
{
    verify_by_oid(data, signature, spki, oid, false)
}

/// The hash and the salt length of RSASSA-PSS-params. The hash and the mask
/// generation function MGF1 with the same hash must be written, since the hash that
/// stands for them otherwise is SHA-1; the trailer field must keep its default.
pub open spec fn pss_parameters(parameters: Seq<u8>) -> Option<(DigestAlgorithm, usize)> {
    match tagged(parameters, 0x30) {
        None => None,
        Some((body, after)) => if after.len() != 0 {
            None
        } else {
            match tagged(body, 0xA0) {
                None => None,
                Some((hash_der, s1)) => match pss_hash(hash_der) {
                    None => None,
                    Some(hash) => match tagged(s1, 0xA1) {
                        None => None,
                        Some((mask_der, s2)) => match pss_salt_length(s2) {
                            None => None,
                            Some((n, s3)) => if s3.len() == 0 && mask_hash(mask_der) == Some(
                                hash,
                            ) {
                                Some((hash, n))
                            } else {
                                None
                            },
                        },
                    },
                },
            }
        },
    }
}

/// The salt length at the start of `s`, and what follows it. Where none is written
/// it is 20.
pub open spec fn pss_salt_length(s: Seq<u8>) -> Option<(usize, Seq<u8>)> {
    if s.len() == 0 || s[0] != 0xA2 {
        Some((20, s))
    } else {
        match tagged(s, 0xA2) {
            None => None,
            Some((salt_der, rest)) => match tagged(salt_der, 0x02) {
                None => None,
                Some((salt, after)) => match uint_within(salt, u64::MAX as nat) {
                    None => None,
                    Some(n) => if after.len() == 0 && n <= usize::MAX {
                        Some((n as usize, rest))
                    } else {
                        None
                    },
                },
            },
        }
    }
}

/// The hash that an AlgorithmIdentifier names.
pub open spec fn pss_hash(der: Seq<u8>) -> Option<DigestAlgorithm> {
    match algorithm_id_of(der) {
        None => None,
        Some(alg) => digest_from_oid(alg.oid),
    }
}

/// The hash of an MGF1 AlgorithmIdentifier.
pub open spec fn mask_hash(der: Seq<u8>) -> Option<DigestAlgorithm> {
    match algorithm_id_of(der) {
        None => None,
        Some(alg) => if alg.oid == OID_MGF1@ && alg.parameters is Some {
            pss_hash(alg.parameters->0)
        } else {
            None
        },
    }
}

fn read_pss_hash(der: &[u8]) -> (r: Option<DigestAlgorithm>)
    ensures
        r == pss_hash(der@),
{
    let alg = decode_algorithm_id(der)?;
    DigestAlgorithm::from_oid(alg.oid.as_slice())
}

fn read_mask_hash(der: &[u8]) -> (r: Option<DigestAlgorithm>)
    ensures
        r == mask_hash(der@),
{
    let alg = decode_algorithm_id(der)?;
    if !bytes_equal(alg.oid.as_slice(), OID_MGF1.as_slice()) {
        return None;
    }
    match &alg.parameters {
        None => None,
        Some(p) => read_pss_hash(p.as_slice()),
    }
}

fn read_pss_salt_length(s: &[u8]) -> (r: Option<(usize, &[u8])>)
    ensures
        match (r, pss_salt_length(s@)) {
            (Some((n, rest)), Some((m, after))) => n == m && rest@ == after,
            (None, None) => true,
            _ => false,
        },
{
    if s.len() == 0 || s[0] != 0xA2 {
        return Some((20, s));
    }
    let (salt_der, rest) = read_tagged(s, 0xA2)?;
    let (salt, after) = read_tagged(salt_der, 0x02)?;
    let n: u64 = decode_u64(salt)?;
    if after.len() != 0 || n > usize::MAX as u64 {
        return None;
    }
    Some((n as usize, rest))
}

fn read_pss_parameters(parameters: &[u8]) -> (r: Option<(DigestAlgorithm, usize)>)
    ensures
        r == pss_parameters(parameters@),
{
    let (body, after) = read_tagged(parameters, 0x30)?;
    if after.len() != 0 {
        return None;
    }
    let (hash_der, s1) = read_tagged(body, 0xA0)?;
    let hash = read_pss_hash(hash_der)?;
    let (mask_der, s2) = read_tagged(s1, 0xA1)?;
    let (n, s3): (usize, &[u8]) = read_pss_salt_length(s2)?;
    if s3.len() != 0 {
        return None;
    }
    match read_mask_hash(mask_der) {
        Some(mask) => if mask == hash { Some((hash, n)) } else { None },
        None => None,
    }
}

/// The check of an RSASSA-PSS signature: the hash of its parameters.
pub open spec fn pss_signature(
    data: Seq<u8>,
    signature: Seq<u8>,
    spki: Seq<u8>,
    parameters: Option<Seq<u8>>,
) -> Result<DigestAlgorithm, TrustError> {
    match parameters {
        None => Err(TrustError::UnsupportedAlgorithm("RSASSA-PSS without parameters")),
        Some(p) => match pss_parameters(p) {
            None => Err(TrustError::UnsupportedAlgorithm("RSASSA-PSS parameters")),
            Some((hash, salt)) => match verdict_result(
                pss_verdict(hash, salt, spki, data, signature),
            ) {
                Err(e) => Err(e),
                Ok(()) => Ok(hash),
            },
        },
    }
}

/// Checks an RSASSA-PSS signature with explicit parameters; returns their hash.
pub fn verify_rsa_pss_signature_strict(
    data: &[u8],
    signature: &[u8],
    spki: &[u8],
    parameters: Option<&[u8]>,
) -> (r: Result<DigestAlgorithm, TrustError>)
    ensures
        r == pss_signature(data@, signature@, spki@, opt_view(parameters)),
{
    let p = match parameters {
        None => return Err(TrustError::UnsupportedAlgorithm("RSASSA-PSS without parameters")),
        Some(p) => p,
    };
    match read_pss_parameters(p) {
        None => Err(TrustError::UnsupportedAlgorithm("RSASSA-PSS parameters")),
        Some((hash, salt)) => match conclude(check_pss(hash, salt, spki, data, signature)) {
            Err(e) => Err(e),
            Ok(()) => Ok(hash),
        },
    }
}

/// The check of a signature with a full AlgorithmIdentifier.
pub open spec fn signature_by_algorithm(
    data: Seq<u8>,
    signature: Seq<u8>,
    spki: Seq<u8>,
    algorithm: AlgorithmIdView,
    legacy: bool,
) -> Result<(), TrustError> {
    if algorithm.oid == OID_RSASSA_PSS@ {
        match pss_signature(data, signature, spki, algorithm.parameters) {
            Err(e) => Err(e),
            Ok(_) => Ok(()),
        }
    } else {
        signature_by_oid(data, signature, spki, algorithm.oid, legacy)
    }
}

/// Checks a signature with a full AlgorithmIdentifier under a policy.
pub fn verify_signature_by_algid_with_policy(
    data: &[u8],
    signature: &[u8],
    spki: &[u8],
    algorithm: &AlgorithmId,
    policy: &SignaturePolicy,
) -> (r: Result<(), TrustError>)
    ensures
        r == signature_by_algorithm(data@, signature@, spki@, algorithm@, policy.legacy()),
{
    if bytes_equal(algorithm.oid.as_slice(), OID_RSASSA_PSS.as_slice()) {
        let parameters: Option<&[u8]> = match &algorithm.parameters {
            Some(p) => Some(p.as_slice()),
            None => None,
        };
        match verify_rsa_pss_signature_strict(data, signature, spki, parameters) {
            Err(e) => Err(e),
            Ok(_) => Ok(()),
        }
    } else {
        verify_by_oid(data, signature, spki, algorithm.oid.as_slice(), policy.legacy_allowed())
    }
}

/// The check of the signature on a certificate with its issuer's key. The
/// certificate must name the same algorithm inside and outside its signed part.
pub open spec fn certificate_signature(
    cert: CertificateView,
    issuer: CertificateView,
    legacy: bool,
) -> Result<(), TrustError> {
    if cert.signature_algorithm != cert.tbs_signature_algorithm {
        Err(TrustError::SignatureVerification("certificate signatureAlgorithm mismatch"))
    } else {
        match algorithm_id_of(cert.signature_algorithm) {
            None => Err(TrustError::UnsupportedAlgorithm("certificate signature algorithm")),
            Some(algorithm) => signature_by_algorithm(
                cert.tbs,
                cert.signature,
                issuer.spki,
                algorithm,
                legacy,
            ),
        }
    }
}

/// Checks the signature on a certificate with its issuer's key under a policy.
pub fn verify_certificate_signature_with_policy(
    cert: &Certificate,
    issuer: &Certificate,
    policy: &SignaturePolicy,
) -> (r: Result<(), TrustError>)
    ensures
        r == certificate_signature(cert@, issuer@, policy.legacy()),
{
    if !bytes_equal(
        cert.signature_algorithm.as_slice(),
        cert.tbs_signature_algorithm.as_slice(),
    ) {
        return Err(TrustError::SignatureVerification("certificate signatureAlgorithm mismatch"));
    }
    match decode_algorithm_id(cert.signature_algorithm.as_slice()) {
        None => Err(TrustError::UnsupportedAlgorithm("certificate signature algorithm")),
        Some(algorithm) => verify_signature_by_algid_with_policy(
            cert.tbs.as_slice(),
            cert.signature.as_slice(),
            issuer.spki.as_slice(),
            &algorithm,
            policy,
        ),
    }
}

/// What the strict policy admits, the legacy policy admits too.
pub proof fn law_legacy_admits_more(
    data: Seq<u8>,
    signature: Seq<u8>,
    spki: Seq<u8>,
    algorithm: AlgorithmIdView,
)
    ensures
        signature_by_algorithm(data, signature, spki, algorithm, false) is Ok
            ==> signature_by_algorithm(data, signature, spki, algorithm, true) is Ok,
{
}

} // verus!
