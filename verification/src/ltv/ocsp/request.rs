//! Building OCSP requests.

use vstd::prelude::*;

use crate::cert::Certificate;
use crate::crypto::algorithm::{hash, random_bytes, HashAlgorithm, OID_SHA1};
use crate::der_utils::encode_tlv;
use crate::error::LtvError;
use crate::tsp::tst_info::DER_NULL;
#[allow(unused_imports)]
use crate::agrees;
#[allow(unused_imports)]
use crate::cert::CertificateView;
#[allow(unused_imports)]
use crate::crypto::algorithm::hash_of;
#[allow(unused_imports)]
use crate::der_utils::{law_tlv_round_trip, tlv, tlv_bytes};

verus! {

/// id-pkix-ocsp-nonce.
pub const OCSP_NONCE_OID: [u8; 9] = [0x2B, 0x06, 0x01, 0x05, 0x05, 0x07, 0x30, 0x01, 0x02];

/// The number of bytes in a nonce.
pub const NONCE_SIZE: usize = 30;

/// The AlgorithmIdentifier of SHA-1 with NULL parameters.
pub open spec fn sha1_identifier() -> Seq<u8> {
    tlv_bytes(0x30, tlv_bytes(0x06, OID_SHA1@) + DER_NULL@)
}

/// The AlgorithmIdentifier of SHA-1 with NULL parameters.
pub fn build_sha1_algorithm_identifier() -> (r: Vec<u8>)
    ensures
        r@ == sha1_identifier(),
{
    let mut body: Vec<u8> = encode_tlv(0x06, OID_SHA1.as_slice());
    body.extend_from_slice(DER_NULL.as_slice());
    assert(body@ =~= tlv_bytes(0x06, OID_SHA1@) + DER_NULL@);
    encode_tlv(0x30, body.as_slice())
}

/// The SHA-1 hash of `data`.
pub fn sha1_hash(data: &[u8]) -> (r: Result<Vec<u8>, LtvError>)
    ensures
        agrees(r, sha1(data@)),
        r matches Ok(h) ==> h@.len() == 20,
{
    match hash(HashAlgorithm::Sha1, data) {
        None => Err(LtvError::Crypto),
        Some(h) => Ok(h),
    }
}

/// The SHA-1 hash of `data`, where the backend computes it.
pub open spec fn sha1(data: Seq<u8>) -> Result<Seq<u8>, LtvError> {
    match hash_of(HashAlgorithm::Sha1, data) {
        None => Err(LtvError::Crypto),
        Some(h) => Ok(h),
    }
}

/// A CertID with the given hashes and serial number.
pub open spec fn cert_id_bytes(name_hash: Seq<u8>, key_hash: Seq<u8>, serial: Seq<u8>) -> Seq<u8> {
    tlv_bytes(
        0x30,
        sha1_identifier() + tlv_bytes(0x04, name_hash) + tlv_bytes(0x04, key_hash) + serial,
    )
}

/// The CertID of a certificate: the hashes of its issuer's name and key, and its
/// serial number.
pub open spec fn cert_id(cert: CertificateView, issuer: CertificateView) -> Result<
    Seq<u8>,
    LtvError,
> {
    match (sha1(issuer.subject), sha1(issuer.public_key)) {
        (Ok(name_hash), Ok(key_hash)) => Ok(cert_id_bytes(name_hash, key_hash, cert.serial_der)),
        _ => Err(LtvError::Crypto),
    }
}

/// Builds the CertID of a certificate.
pub fn build_cert_id(cert: &Certificate, issuer: &Certificate) -> (r: Result<Vec<u8>, LtvError>)
    ensures
        agrees(r, cert_id(cert@, issuer@)),
{
    let name_hash: Vec<u8> = sha1_hash(issuer.subject.as_slice())?;
    let key_hash: Vec<u8> = sha1_hash(issuer.public_key.as_slice())?;
    let mut body: Vec<u8> = build_sha1_algorithm_identifier();
    let name_der: Vec<u8> = encode_tlv(0x04, name_hash.as_slice());
    let key_der: Vec<u8> = encode_tlv(0x04, key_hash.as_slice());
    body.extend_from_slice(name_der.as_slice());
    body.extend_from_slice(key_der.as_slice());
    body.extend_from_slice(cert.serial_der.as_slice());
    assert(body@ =~= sha1_identifier() + tlv_bytes(0x04, name_hash@) + tlv_bytes(0x04, key_hash@)
        + cert@.serial_der);
    Ok(encode_tlv(0x30, body.as_slice()))
}

/// The request list with one CertID.
pub open spec fn request_list(id: Seq<u8>) -> Seq<u8> {
    tlv_bytes(0x30, tlv_bytes(0x30, id))
}

/// An OCSPRequest for one CertID.
pub open spec fn request_bytes(id: Seq<u8>) -> Seq<u8> {
    tlv_bytes(0x30, tlv_bytes(0x30, request_list(id)))
}

/// The request extensions that carry a nonce: the extension value wraps an OCTET
/// STRING that holds the nonce.
pub open spec fn nonce_extensions(nonce: Seq<u8>) -> Seq<u8> {
    tlv_bytes(
        0xA2,
        tlv_bytes(
            0x30,
            tlv_bytes(
                0x30,
                tlv_bytes(0x06, OCSP_NONCE_OID@) + tlv_bytes(0x04, tlv_bytes(0x04, nonce)),
            ),
        ),
    )
}

/// An OCSPRequest for one CertID with a nonce.
pub open spec fn request_bytes_with_nonce(id: Seq<u8>, nonce: Seq<u8>) -> Seq<u8> {
    tlv_bytes(0x30, tlv_bytes(0x30, request_list(id) + nonce_extensions(nonce)))
}

fn encode_request_list(id: &[u8]) -> (r: Vec<u8>)
    ensures
        r@ == request_list(id@),
{
    let request: Vec<u8> = encode_tlv(0x30, id);
    encode_tlv(0x30, request.as_slice())
}

/// Builds a request for the status of a certificate.
pub fn build_ocsp_request(cert: &Certificate, issuer: &Certificate) -> (r: Result<
    Vec<u8>,
    LtvError,
>)
    ensures
        agrees(
            r,
            match cert_id(cert@, issuer@) {
                Err(e) => Err(e),
                Ok(id) => Ok(request_bytes(id)),
            },
        ),
{
    let id: Vec<u8> = build_cert_id(cert, issuer)?;
    let list: Vec<u8> = encode_request_list(id.as_slice());
    let tbs: Vec<u8> = encode_tlv(0x30, list.as_slice());
    Ok(encode_tlv(0x30, tbs.as_slice()))
}

/// Builds a request for the status of a certificate that carries a given nonce.
pub fn build_ocsp_request_for_nonce(cert: &Certificate, issuer: &Certificate, nonce: &[u8]) -> (r:
    Result<Vec<u8>, LtvError>)
    ensures
        agrees(
            r,
            match cert_id(cert@, issuer@) {
                Err(e) => Err(e),
                Ok(id) => Ok(request_bytes_with_nonce(id, nonce@)),
            },
        ),
{
    let id: Vec<u8> = build_cert_id(cert, issuer)?;
    let mut body: Vec<u8> = encode_request_list(id.as_slice());
    let inner: Vec<u8> = encode_tlv(0x04, nonce);
    let outer: Vec<u8> = encode_tlv(0x04, inner.as_slice());
    let mut extension: Vec<u8> = encode_tlv(0x06, OCSP_NONCE_OID.as_slice());
    extension.extend_from_slice(outer.as_slice());
    let extension_der: Vec<u8> = encode_tlv(0x30, extension.as_slice());
    let list: Vec<u8> = encode_tlv(0x30, extension_der.as_slice());
    let tagged: Vec<u8> = encode_tlv(0xA2, list.as_slice());
    body.extend_from_slice(tagged.as_slice());
    assert(body@ =~= request_list(id@) + nonce_extensions(nonce@));
    let tbs: Vec<u8> = encode_tlv(0x30, body.as_slice());
    Ok(encode_tlv(0x30, tbs.as_slice()))
}

/// A random nonce for a request; it fails only where the backend gives no random
/// bytes.
pub fn generate_nonce() -> (r: Result<Vec<u8>, LtvError>)
    ensures
        r matches Ok(nonce) ==> nonce@.len() == NONCE_SIZE,
        r matches Err(e) ==> e == LtvError::Crypto,
{
    match random_bytes(NONCE_SIZE) {
        None => Err(LtvError::Crypto),
        Some(nonce) => Ok(nonce),
    }
}

/// Builds a request for the status of a certificate with a fresh nonce; returns
/// the request and the nonce. What the nonce is is left to chance; the request is
/// the one for that nonce.
pub fn build_ocsp_request_with_nonce(cert: &Certificate, issuer: &Certificate) -> (r: Result<
    (Vec<u8>, Vec<u8>),
    LtvError,
>)
    ensures
        r matches Ok((request, nonce)) ==> nonce@.len() == NONCE_SIZE && (cert_id(cert@, issuer@)
            matches Ok(id) && request@ == request_bytes_with_nonce(id, nonce@)),
        r matches Err(e) ==> e == LtvError::Crypto,
{
    let nonce: Vec<u8> = generate_nonce()?;
    let request: Vec<u8> = build_ocsp_request_for_nonce(cert, issuer, nonce.as_slice())?;
    Ok((request, nonce))
}

/// A request determines its CertID and its nonce: requests for different
/// certificates or with different nonces are different.
pub proof fn law_request_determines_nonce(
    id_a: Seq<u8>,
    nonce_a: Seq<u8>,
    id_b: Seq<u8>,
    nonce_b: Seq<u8>,
)
    requires
        request_bytes_with_nonce(id_a, nonce_a) == request_bytes_with_nonce(id_b, nonce_b),
        request_bytes_with_nonce(id_a, nonce_a).len() <= u32::MAX,
    ensures
        id_a == id_b,
        nonce_a == nonce_b,
{
    lemma_open_request(id_a, nonce_a);
    lemma_open_request(id_b, nonce_b);
}

/// The CertID and the nonce that are read out of a request.
pub open spec fn opened_request(request: Seq<u8>) -> (Seq<u8>, Seq<u8>) {
    let tbs = tlv(request)->Ok_0.1;
    let body = tlv(tbs)->Ok_0.1;
    let list = tlv(body)->Ok_0.1;
    let extensions = tlv(tlv(tlv(body)->Ok_0.2)->Ok_0.1)->Ok_0.1;
    let extension = tlv(extensions)->Ok_0.1;
    let value = tlv(tlv(extension)->Ok_0.2)->Ok_0.1;
    (tlv(list)->Ok_0.1, tlv(value)->Ok_0.1)
}

/// Reading a request that was built gives back its CertID and its nonce.
pub proof fn lemma_open_request(id: Seq<u8>, nonce: Seq<u8>)
    requires
        request_bytes_with_nonce(id, nonce).len() <= u32::MAX,
    ensures
        opened_request(request_bytes_with_nonce(id, nonce)) == (id, nonce),
{
    let none = Seq::<u8>::empty();
    let value = tlv_bytes(0x04, nonce);
    let extension = tlv_bytes(0x06, OCSP_NONCE_OID@) + tlv_bytes(0x04, value);
    let extensions = tlv_bytes(0x30, extension);
    let tagged = tlv_bytes(0x30, extensions);
    let list = tlv_bytes(0x30, id);
    let body = request_list(id) + nonce_extensions(nonce);
    let tbs = tlv_bytes(0x30, body);
    lemma_written(0x30, tbs, none);
    lemma_written(0x30, body, none);
    lemma_written(0x30, list, nonce_extensions(nonce));
    lemma_written(0x30, id, none);
    lemma_written(0xA2, tagged, none);
    lemma_written(0x30, extensions, none);
    lemma_written(0x30, extension, none);
    lemma_written(0x06, OCSP_NONCE_OID@, tlv_bytes(0x04, value));
    lemma_written(0x04, value, none);
    lemma_written(0x04, nonce, none);
}

proof fn lemma_written(tag: u8, body: Seq<u8>, after: Seq<u8>)
    requires
        body.len() <= u32::MAX,
    ensures
        tlv(tlv_bytes(tag, body) + after) == Ok::<
            (u8, Seq<u8>, Seq<u8>),
            crate::der_utils::DerError,
        >((tag, body, after)),
        after.len() == 0 ==> tlv(tlv_bytes(tag, body)) == Ok::<
            (u8, Seq<u8>, Seq<u8>),
            crate::der_utils::DerError,
        >((tag, body, Seq::<u8>::empty())),
        body.len() < tlv_bytes(tag, body).len(),
{
    law_tlv_round_trip(tag, body, after);
    if after.len() == 0 {
        assert(tlv_bytes(tag, body) + after =~= tlv_bytes(tag, body));
        assert(after =~= Seq::<u8>::empty());
    }
}

} // verus!
