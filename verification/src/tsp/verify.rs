//! Verification of timestamp tokens.

use vstd::prelude::*;

use crate::asn1::{any_contents, decode_algorithm_id, is_oid, AlgorithmId};
use crate::bytes::{bytes_equal, to_vec};
use crate::cert::Certificate;
use crate::crypto::algorithm::{same_bytes, same_number, DigestAlgorithm};
use crate::crypto::verify::{
    verify_rsa_pss_signature_strict, verify_signature_by_oid, OID_ECDSA_SHA256, OID_ECDSA_SHA384,
    OID_ECDSA_SHA512, OID_EC_PUBLIC_KEY, OID_RSASSA_PSS, OID_RSA_ENCRYPTION, OID_RSA_SHA256,
    OID_RSA_SHA384, OID_RSA_SHA512,
};
use crate::error::{Fault, TrustError, TspError};
use crate::ltv::status::CertRole;
use crate::oid::Oid;
use crate::time::CivilTime;
use crate::trust::{PathQuery, TrustQuery, TrustStore};
use crate::tsp::chain::order_chain;
use crate::tsp::cms::{
    decode_attributes, decode_content_info, decode_signed_data, decode_signer_info,
    find_attribute, Attribute, SignerId, SignerParts,
};
use crate::tsp::ess::{
    signing_certificate_bindings, EssBinding, ID_SIGNING_CERTIFICATE, ID_SIGNING_CERTIFICATE_V2,
};
use crate::tsp::response::TimeStampResp;
use crate::tsp::signer::{
    check_gen_time_within_validity, check_tsa_identity, gen_time_parts, require_not_ca,
    require_timestamp_signing_key_usage, require_timestamping_eku,
    signer_identifier_matches,
};
use crate::tsp::tst_info::{parse_content_octets, parse_tst_info_body, TstInfo};
#[allow(unused_imports)]
use crate::agrees;
#[allow(unused_imports)]
use crate::asn1::{algorithm_id_of, canonical_contents, oid_text, oid_valid, AlgorithmIdView};
#[allow(unused_imports)]
use crate::cert::{certificate_of, certificate_views, CertificateView};
#[allow(unused_imports)]
use crate::crypto::algorithm::{digest_from_oid, hash_of, HashAlgorithm};
#[allow(unused_imports)]
use crate::crypto::verify::{pss_signature, signature_by_oid};
#[allow(unused_imports)]
use crate::opt_view;
#[allow(unused_imports)]
use crate::trust::{PathQueryView, TrustQueryView};
#[allow(unused_imports)]
use crate::tsp::chain::{grown_chain, MAX_CHAIN_STEPS};
#[allow(unused_imports)]
use crate::tsp::cms::{
    attribute_views, attributes_of, content_info_layout, content_info_of, signed_data_layout,
    signed_data_of, signer_info_of, single_value, with_type, AttributeView, ContentPartsView,
    SignedPartsView, SignerIdView, SignerPartsView,
};
#[allow(unused_imports)]
use crate::tsp::ess::{binding_matches, binding_views, ess_bindings, failed, EssBindingView};
#[allow(unused_imports)]
use crate::tsp::signer::{
    gen_time, gen_time_within, not_ca, signer_id_matches, signing_key_usage, timestamping_eku,
    tsa_identity,
};
#[allow(unused_imports)]
use crate::tsp::tst_info::{
    content_octets, invalid, token_content, token_tst_info, tst_info, TstInfoView,
};

verus! {

/// id-ct-TSTInfo.
pub const ID_CT_TST_INFO: [u8; 11] = [
    0x2A, 0x86, 0x48, 0x86, 0xF7, 0x0D, 0x01, 0x09, 0x10, 0x01, 0x04,
];

/// id-signedData.
pub const ID_SIGNED_DATA: [u8; 9] = [0x2A, 0x86, 0x48, 0x86, 0xF7, 0x0D, 0x01, 0x07, 0x02];

/// id-contentType.
pub const ID_CONTENT_TYPE_ATTR: [u8; 9] = [0x2A, 0x86, 0x48, 0x86, 0xF7, 0x0D, 0x01, 0x09, 0x03];

/// id-messageDigest.
pub const ID_MESSAGE_DIGEST_ATTR: [u8; 9] = [0x2A, 0x86, 0x48, 0x86, 0xF7, 0x0D, 0x01, 0x09, 0x04];

/// The certificate that signed a token, and all certificates that came with it.
#[derive(Debug)]
pub struct VerifiedToken {
    pub signer: Certificate,
    pub embedded: Vec<Certificate>,
}

/// What a token holds before anything of it is verified.
pub struct OpenedToken {
    /// The TSTInfo.
    pub content: Vec<u8>,
    /// The certificates, as DER.
    pub certificates: Vec<Option<Vec<u8>>>,
    /// The signer.
    pub signer: SignerParts,
    /// The signed attributes, as DER.
    pub signed_attrs: Vec<u8>,
}

/// What an [`OpenedToken`] holds.
#[verifier::ext_equal]
pub struct OpenedTokenView {
    pub content: Seq<u8>,
    pub certificates: Seq<Option<Seq<u8>>>,
    pub signer: SignerPartsView,
    pub signed_attrs: Seq<u8>,
}

impl View for OpenedToken {
    type V = OpenedTokenView;

    open spec fn view(&self) -> OpenedTokenView {
        OpenedTokenView {
            content: self.content@,
            certificates: self.certificates@.map_values(|c: Option<Vec<u8>>| opt_view(c)),
            signer: self.signer@,
            signed_attrs: self.signed_attrs@,
        }
    }
}

/// A token opened: a SignedData over a TSTInfo with exactly one signer, who signs
/// attributes.
#[verifier::opaque]
pub open spec fn opened_token(token: Seq<u8>) -> Result<OpenedTokenView, TspError> {
    match content_info_of(token) {
        None => invalid(Fault::Malformed("failed to parse ContentInfo")),
        Some(info) => if info.content_type != ID_SIGNED_DATA@ {
            invalid(Fault::Text("ContentInfo contentType is not id-signedData"))
        } else {
            match signed_data_of(info.content) {
                None => invalid(Fault::Malformed("failed to parse SignedData")),
                Some(data) => if data.econtent_type != ID_CT_TST_INFO@ {
                    invalid(Fault::Text("encapContentInfo eContentType is not id-ct-TSTInfo"))
                } else if data.econtent is None {
                    invalid(Fault::Text("SignedData has no encapsulated content"))
                } else {
                    match content_octets(data.econtent->0) {
                        Err(e) => Err(e),
                        Ok(content) => opened_content(data, content),
                    }
                },
            }
        },
    }
}

/// A SignedData opened, with the octets of its content.
pub open spec fn opened_content(data: SignedPartsView, content: Seq<u8>) -> Result<
    OpenedTokenView,
    TspError,
> {
    if data.signer_infos.len() != 1 {
        invalid(
            Fault::Count(
                "expected exactly one SignerInfo, found ",
                data.signer_infos.len() as usize,
            ),
        )
    } else {
        match signer_info_of(data.signer_infos[0]) {
            None => invalid(Fault::Malformed("failed to parse SignedData")),
            Some(signer) => if signer.signed_attrs is None {
                failed(Fault::Text("SignerInfo has no signedAttrs"))
            } else {
                Ok(
                    OpenedTokenView {
                        content,
                        certificates: data.certificates,
                        signer,
                        signed_attrs: signer.signed_attrs->0,
                    },
                )
            },
        }
    }
}

/// `content` is what is read out of a token without verification.
#[verifier::opaque]
pub open spec fn is_token_content(token: Seq<u8>, content: Seq<u8>) -> bool {
    token_content(token) == Ok::<Seq<u8>, TspError>(content)
}

proof fn lemma_token_content(token: Seq<u8>, info: ContentPartsView, data: SignedPartsView)
    requires
        content_info_layout(token, info),
        signed_data_layout(info.content, data),
        data.econtent is Some,
    ensures
        content_octets(data.econtent->0) matches Ok(content) ==> is_token_content(token, content),
{
    reveal(content_info_layout);
    reveal(signed_data_layout);
    reveal(is_token_content);
}

fn open_token(token: &[u8]) -> (r: Result<OpenedToken, TspError>)
    ensures
        agrees(r, opened_token(token@)),
        r matches Ok(opened) ==> is_token_content(token@, opened@.content),
{
    proof {
        reveal(opened_token);
    }
    let info = match decode_content_info(token) {
        None => return Err(
            TspError::InvalidResponse(Fault::Malformed("failed to parse ContentInfo")),
        ),
        Some(i) => i,
    };
    if !bytes_equal(info.content_type.as_slice(), ID_SIGNED_DATA.as_slice()) {
        return Err(
            TspError::InvalidResponse(
                Fault::Text("ContentInfo contentType is not id-signedData"),
            ),
        );
    }
    let data = match decode_signed_data(info.content.as_slice()) {
        None => return Err(
            TspError::InvalidResponse(Fault::Malformed("failed to parse SignedData")),
        ),
        Some(d) => d,
    };
    if !bytes_equal(data.econtent_type.as_slice(), ID_CT_TST_INFO.as_slice()) {
        return Err(
            TspError::InvalidResponse(
                Fault::Text("encapContentInfo eContentType is not id-ct-TSTInfo"),
            ),
        );
    }
    let ghost parts = data@;
    let content: Vec<u8> = match &data.econtent {
        None => return Err(
            TspError::InvalidResponse(Fault::Text("SignedData has no encapsulated content")),
        ),
        Some(element) => to_vec(parse_content_octets(element.as_slice())?),
    };
    if data.signer_infos.len() != 1 {
        return Err(
            TspError::InvalidResponse(
                Fault::Count("expected exactly one SignerInfo, found ", data.signer_infos.len()),
            ),
        );
    }
    assert(data@.signer_infos[0] == data.signer_infos@[0]@);
    let signer = match decode_signer_info(data.signer_infos[0].as_slice()) {
        None => return Err(
            TspError::InvalidResponse(Fault::Malformed("failed to parse SignedData")),
        ),
        Some(s) => s,
    };
    let signed_attrs: Vec<u8> = match &signer.signed_attrs {
        None => return Err(
            TspError::VerificationFailed(Fault::Text("SignerInfo has no signedAttrs")),
        ),
        Some(a) => to_vec(a.as_slice()),
    };
    proof {
        lemma_token_content(token@, info@, parts);
    }
    Ok(OpenedToken { content, certificates: data.certificates, signer, signed_attrs })
}

/// The certificates of `list` from index `i` on, after those of `found`; none
/// where one cannot be decoded.
pub open spec fn decoded_certificates(
    list: Seq<Option<Seq<u8>>>,
    i: nat,
    found: Seq<CertificateView>,
) -> Option<Seq<CertificateView>>
    decreases list.len() - i,
{
    if i >= list.len() {
        Some(found)
    } else {
        match list[i as int] {
            None => decoded_certificates(list, i + 1, found),
            Some(der) => match certificate_of(der) {
                None => None,
                Some(c) => decoded_certificates(list, i + 1, found.push(c)),
            },
        }
    }
}

/// A certificate of `pool` has the given DER.
pub open spec fn has_der(pool: Seq<CertificateView>, der: Seq<u8>) -> bool {
    exists|i: int| 0 <= i < pool.len() && (#[trigger] pool[i]).der == der
}

/// `pool` with the certificates of `extra` from index `i` on that it does not hold
/// yet.
pub open spec fn with_extra(
    pool: Seq<CertificateView>,
    extra: Seq<CertificateView>,
    i: nat,
) -> Seq<CertificateView>
    decreases extra.len() - i,
{
    if i >= extra.len() {
        pool
    } else if has_der(pool, extra[i as int].der) {
        with_extra(pool, extra, i + 1)
    } else {
        with_extra(pool.push(extra[i as int]), extra, i + 1)
    }
}

/// The certificates among which the signer is looked for.
pub open spec fn certificate_pool(
    list: Seq<Option<Seq<u8>>>,
    extra: Seq<CertificateView>,
) -> Result<Seq<CertificateView>, TspError> {
    match decoded_certificates(list, 0, Seq::empty()) {
        None => invalid(Fault::Malformed("failed to parse SignedData")),
        Some(found) => if with_extra(found, extra, 0).len() == 0 {
            invalid(
                Fault::Text(
                    "timestamp token contains no certificates and no extra_certs were supplied; request the token with certReq=true, or pass the TSA certificate via extra_certs",
                ),
            )
        } else {
            Ok(with_extra(found, extra, 0))
        },
    }
}

fn pool_has_der(pool: &Vec<Certificate>, der: &[u8]) -> (r: bool)
    ensures
        r == has_der(certificate_views(pool@), der@),
{
    let mut i: usize = 0;
    while i < pool.len()
        invariant
            i <= pool.len(),
            forall|j: int| 0 <= j < i ==> (#[trigger] certificate_views(pool@)[j]).der != der@,
        decreases pool.len() - i,
    {
        assert(certificate_views(pool@)[i as int] == pool@[i as int]@);
        if bytes_equal(pool[i].der.as_slice(), der) {
            return true;
        }
        i += 1;
    }
    false
}

fn gather_certificates(list: &Vec<Option<Vec<u8>>>, extra: &[Certificate]) -> (r: Result<
    Vec<Certificate>,
    TspError,
>)
    ensures
        match (
            r,
            certificate_pool(
                list@.map_values(|c: Option<Vec<u8>>| opt_view(c)),
                certificate_views(extra@),
            ),
        ) {
            (Ok(v), Ok(w)) => certificate_views(v@) == w,
            (Err(e), Err(f)) => e == f,
            _ => false,
        },
{
    let ghost encoded = list@.map_values(|c: Option<Vec<u8>>| opt_view(c));
    let ghost more = certificate_views(extra@);
    let mut pool: Vec<Certificate> = Vec::new();
    assert(certificate_views(pool@) =~= Seq::<CertificateView>::empty());
    let mut i: usize = 0;
    while i < list.len()
        invariant
            i <= list.len(),
            encoded == list@.map_values(|c: Option<Vec<u8>>| opt_view(c)),
            more == certificate_views(extra@),
            decoded_certificates(encoded, i as nat, certificate_views(pool@))
                == decoded_certificates(encoded, 0, Seq::empty()),
        decreases list.len() - i,
    {
        assert(encoded[i as int] == opt_view(list@[i as int]));
        match &list[i] {
            None => {},
            Some(der) => match Certificate::from_der(der.as_slice()) {
                None => return Err(
                    TspError::InvalidResponse(Fault::Malformed("failed to parse SignedData")),
                ),
                Some(c) => {
                    let ghost before = certificate_views(pool@);
                    pool.push(c);
                    assert(certificate_views(pool@) =~= before.push(c@));
                },
            },
        }
        i += 1;
    }
    let ghost found = certificate_views(pool@);
    let mut k: usize = 0;
    while k < extra.len()
        invariant
            k <= extra.len(),
            more == certificate_views(extra@),
            with_extra(certificate_views(pool@), more, k as nat) == with_extra(found, more, 0),
        decreases extra.len() - k,
    {
        assert(more[k as int] == extra@[k as int]@);
        if !pool_has_der(&pool, extra[k].der.as_slice()) {
            let ghost before = certificate_views(pool@);
            pool.push(extra[k].duplicate());
            assert(certificate_views(pool@) =~= before.push(more[k as int]));
        }
        k += 1;
    }
    assert(certificate_views(pool@).len() == pool@.len());
    if pool.len() == 0 {
        return Err(
            TspError::InvalidResponse(
                Fault::Text(
                    "timestamp token contains no certificates and no extra_certs were supplied; request the token with certReq=true, or pass the TSA certificate via extra_certs",
                ),
            ),
        );
    }
    Ok(pool)
}

/// All bindings from index `k` on identify a certificate.
pub open spec fn all_bindings_match(
    bindings: Seq<EssBindingView>,
    cert: CertificateView,
    k: nat,
) -> Result<bool, TspError>
    decreases bindings.len() - k,
{
    if k >= bindings.len() {
        Ok(true)
    } else {
        match binding_matches(bindings[k as int], cert) {
            Err(e) => Err(e),
            Ok(false) => Ok(false),
            Ok(true) => all_bindings_match(bindings, cert, k + 1),
        }
    }
}

fn bindings_match(bindings: &Vec<EssBinding>, cert: &Certificate) -> (r: Result<bool, TspError>)
    ensures
        r == all_bindings_match(binding_views(bindings@), cert@, 0),
{
    let ghost all = binding_views(bindings@);
    let mut k: usize = 0;
    while k < bindings.len()
        invariant
            k <= bindings.len(),
            all == binding_views(bindings@),
            all_bindings_match(all, cert@, k as nat) == all_bindings_match(all, cert@, 0),
        decreases bindings.len() - k,
    {
        assert(all[k as int] == bindings@[k as int]@);
        if !bindings[k].matches(cert)? {
            return Ok(false);
        }
        k += 1;
    }
    Ok(true)
}

/// The first certificate from index `i` on that the signer identifier and every
/// binding name.
pub open spec fn signing_certificate(
    pool: Seq<CertificateView>,
    sid: SignerIdView,
    bindings: Seq<EssBindingView>,
    i: nat,
) -> Result<CertificateView, TspError>
    decreases pool.len() - i,
{
    if i >= pool.len() {
        failed(
            Fault::Text("no signing certificate matches SignerInfo and ESS certificate bindings"),
        )
    } else if !signer_id_matches(sid, pool[i as int]) {
        signing_certificate(pool, sid, bindings, i + 1)
    } else {
        match all_bindings_match(bindings, pool[i as int], 0) {
            Err(e) => Err(e),
            Ok(true) => Ok(pool[i as int]),
            Ok(false) => signing_certificate(pool, sid, bindings, i + 1),
        }
    }
}

fn find_signer(pool: &Vec<Certificate>, sid: &SignerId, bindings: &Vec<EssBinding>) -> (r: Result<
    Certificate,
    TspError,
>)
    ensures
        agrees(
            r,
            signing_certificate(certificate_views(pool@), sid@, binding_views(bindings@), 0),
        ),
{
    let ghost certs = certificate_views(pool@);
    let ghost all = binding_views(bindings@);
    let mut i: usize = 0;
    while i < pool.len()
        invariant
            i <= pool.len(),
            certs == certificate_views(pool@),
            all == binding_views(bindings@),
            signing_certificate(certs, sid@, all, i as nat) == signing_certificate(
                certs,
                sid@,
                all,
                0,
            ),
        decreases pool.len() - i,
    {
        assert(certs[i as int] == pool@[i as int]@);
        if signer_identifier_matches(sid, &pool[i]) {
            if bindings_match(bindings, &pool[i])? {
                return Ok(pool[i].duplicate());
            }
        }
        i += 1;
    }
    Err(
        TspError::VerificationFailed(
            Fault::Text("no signing certificate matches SignerInfo and ESS certificate bindings"),
        ),
    )
}

/// The body of a DER-encoded object identifier.
pub open spec fn oid_element(der: Seq<u8>) -> Option<Seq<u8>> {
    match canonical_contents(der) {
        None => None,
        Some(contents) => if der[0] == 0x06 && oid_valid(contents) { Some(contents) } else { None },
    }
}

/// The contents of a DER-encoded OCTET STRING.
pub open spec fn octets_element(der: Seq<u8>) -> Option<Seq<u8>> {
    match canonical_contents(der) {
        None => None,
        Some(contents) => if der[0] == 0x04 { Some(contents) } else { None },
    }
}

/// The hash algorithm of the signer, where the signed attributes cover the
/// content: its type and its hash.
pub open spec fn signed_content(
    attrs: Seq<AttributeView>,
    digest_oid: Seq<u8>,
    content: Seq<u8>,
) -> Result<DigestAlgorithm, TspError> {
    match digest_from_oid(digest_oid) {
        None => failed(Fault::Text("unsupported SignerInfo digestAlgorithm OID")),
        Some(digest) => match signed_type(attrs) {
            Err(e) => Err(e),
            Ok(()) => match single_value(attrs, ID_MESSAGE_DIGEST_ATTR@) {
                Err(e) => Err(e),
                Ok(None) => failed(Fault::Text("signedAttrs missing message-digest attribute")),
                Ok(Some(value)) => match octets_element(value) {
                    None => failed(
                        Fault::Malformed("message-digest attribute is not an OCTET STRING"),
                    ),
                    Some(claimed) => match hash_of(HashAlgorithm::Digest(digest), content) {
                        None => Err(TspError::Crypto),
                        Some(computed) => if claimed != computed {
                            failed(
                                Fault::Text(
                                    "message-digest signed attribute does not match the TSTInfo content",
                                ),
                            )
                        } else {
                            Ok(digest)
                        },
                    },
                },
            },
        },
    }
}

/// The signed content type is that of a TSTInfo.
pub open spec fn signed_type(attrs: Seq<AttributeView>) -> Result<(), TspError> {
    match single_value(attrs, ID_CONTENT_TYPE_ATTR@) {
        Err(e) => Err(e),
        Ok(None) => failed(Fault::Text("signedAttrs missing content-type attribute")),
        Ok(Some(value)) => match oid_element(value) {
            None => failed(Fault::Malformed("invalid content-type attribute")),
            Some(oid) => if oid != ID_CT_TST_INFO@ {
                failed(Fault::Text("signed content-type is not id-ct-TSTInfo"))
            } else {
                Ok(())
            },
        },
    }
}

fn check_signed_type(attrs: &Vec<Attribute>) -> (r: Result<(), TspError>)
    ensures
        r == signed_type(attribute_views(attrs@)),
{
    let value = match find_attribute(attrs, ID_CONTENT_TYPE_ATTR.as_slice())? {
        None => return Err(
            TspError::VerificationFailed(
                Fault::Text("signedAttrs missing content-type attribute"),
            ),
        ),
        Some(v) => v,
    };
    match any_contents(value.as_slice()) {
        Some(contents) => {
            if value[0] == 0x06 && is_oid(contents) {
                if bytes_equal(contents, ID_CT_TST_INFO.as_slice()) {
                    return Ok(());
                }
                return Err(
                    TspError::VerificationFailed(
                        Fault::Text("signed content-type is not id-ct-TSTInfo"),
                    ),
                );
            }
        },
        None => {},
    }
    Err(TspError::VerificationFailed(Fault::Malformed("invalid content-type attribute")))
}

fn check_signed_content(attrs: &Vec<Attribute>, digest_oid: &[u8], content: &[u8]) -> (r: Result<
    DigestAlgorithm,
    TspError,
>)
    ensures
        r == signed_content(attribute_views(attrs@), digest_oid@, content@),
{
    let digest = match DigestAlgorithm::from_oid(digest_oid) {
        None => return Err(
            TspError::VerificationFailed(
                Fault::Text("unsupported SignerInfo digestAlgorithm OID"),
            ),
        ),
        Some(d) => d,
    };
    check_signed_type(attrs)?;
    let value = match find_attribute(attrs, ID_MESSAGE_DIGEST_ATTR.as_slice())? {
        None => return Err(
            TspError::VerificationFailed(
                Fault::Text("signedAttrs missing message-digest attribute"),
            ),
        ),
        Some(v) => v,
    };
    let claimed = match any_contents(value.as_slice()) {
        Some(contents) => {
            if value[0] != 0x04 {
                return Err(
                    TspError::VerificationFailed(
                        Fault::Malformed("message-digest attribute is not an OCTET STRING"),
                    ),
                );
            }
            contents
        },
        None => return Err(
            TspError::VerificationFailed(
                Fault::Malformed("message-digest attribute is not an OCTET STRING"),
            ),
        ),
    };
    let computed = match digest.digest(content) {
        None => return Err(TspError::Crypto),
        Some(h) => h,
    };
    if !bytes_equal(claimed, computed.as_slice()) {
        return Err(
            TspError::VerificationFailed(
                Fault::Text("message-digest signed attribute does not match the TSTInfo content"),
            ),
        );
    }
    Ok(digest)
}

/// The hash that a combined signature algorithm identifier fixes.
pub open spec fn combined_digest(oid: Seq<u8>) -> Option<DigestAlgorithm> {
    if oid == OID_RSA_SHA256@ || oid == OID_ECDSA_SHA256@ {
        Some(DigestAlgorithm::Sha256)
    } else if oid == OID_RSA_SHA384@ || oid == OID_ECDSA_SHA384@ {
        Some(DigestAlgorithm::Sha384)
    } else if oid == OID_RSA_SHA512@ || oid == OID_ECDSA_SHA512@ {
        Some(DigestAlgorithm::Sha512)
    } else {
        None
    }
}

/// The hash that a combined signature algorithm identifier fixes.
pub fn combined_oid_digest(oid: &[u8]) -> (r: Option<DigestAlgorithm>)
    ensures
        r == combined_digest(oid@),
{
    if bytes_equal(oid, OID_RSA_SHA256.as_slice()) || bytes_equal(oid, OID_ECDSA_SHA256.as_slice()) {
        Some(DigestAlgorithm::Sha256)
    } else if bytes_equal(oid, OID_RSA_SHA384.as_slice()) || bytes_equal(
        oid,
        OID_ECDSA_SHA384.as_slice(),
    ) {
        Some(DigestAlgorithm::Sha384)
    } else if bytes_equal(oid, OID_RSA_SHA512.as_slice()) || bytes_equal(
        oid,
        OID_ECDSA_SHA512.as_slice(),
    ) {
        Some(DigestAlgorithm::Sha512)
    } else {
        None
    }
}

/// The combined identifier of a key type and a hash; the identifier itself where
/// it names no key type, or where there is no combined one.
pub open spec fn resolved_algorithm(oid: Seq<u8>, digest: DigestAlgorithm) -> Seq<u8> {
    if oid == OID_RSA_ENCRYPTION@ {
        match digest {
            DigestAlgorithm::Sha256 => OID_RSA_SHA256@,
            DigestAlgorithm::Sha384 => OID_RSA_SHA384@,
            DigestAlgorithm::Sha512 => OID_RSA_SHA512@,
            _ => oid,
        }
    } else if oid == OID_EC_PUBLIC_KEY@ {
        match digest {
            DigestAlgorithm::Sha256 => OID_ECDSA_SHA256@,
            DigestAlgorithm::Sha384 => OID_ECDSA_SHA384@,
            DigestAlgorithm::Sha512 => OID_ECDSA_SHA512@,
            _ => oid,
        }
    } else {
        oid
    }
}

fn resolve_algorithm(oid: &[u8], digest: DigestAlgorithm) -> (r: Vec<u8>)
    ensures
        r@ == resolved_algorithm(oid@, digest),
{
    if bytes_equal(oid, OID_RSA_ENCRYPTION.as_slice()) {
        match digest {
            DigestAlgorithm::Sha256 => to_vec(OID_RSA_SHA256.as_slice()),
            DigestAlgorithm::Sha384 => to_vec(OID_RSA_SHA384.as_slice()),
            DigestAlgorithm::Sha512 => to_vec(OID_RSA_SHA512.as_slice()),
            _ => to_vec(oid),
        }
    } else if bytes_equal(oid, OID_EC_PUBLIC_KEY.as_slice()) {
        match digest {
            DigestAlgorithm::Sha256 => to_vec(OID_ECDSA_SHA256.as_slice()),
            DigestAlgorithm::Sha384 => to_vec(OID_ECDSA_SHA384.as_slice()),
            DigestAlgorithm::Sha512 => to_vec(OID_ECDSA_SHA512.as_slice()),
            _ => to_vec(oid),
        }
    } else {
        to_vec(oid)
    }
}

/// The check of a RSASSA-PSS signature whose hash must be the declared one.
pub open spec fn cms_pss_signature(
    attrs: Seq<u8>,
    signature: Seq<u8>,
    spki: Seq<u8>,
    parameters: Option<Seq<u8>>,
    digest: DigestAlgorithm,
) -> Result<(), TrustError> {
    match pss_signature(attrs, signature, spki, parameters) {
        Err(e) => Err(e),
        Ok(hash) => if hash != digest {
            Err(TrustError::DigestDisagrees("RSASSA-PSS hashAlgorithm", hash, digest))
        } else {
            Ok(())
        },
    }
}

/// Checks a RSASSA-PSS signature whose hash must be the declared one.
pub fn verify_pss_signature(
    signed_attrs_der: &[u8],
    signature: &[u8],
    spki_der: &[u8],
    signature_algorithm: &AlgorithmId,
    digest_alg: DigestAlgorithm,
) -> (r: Result<(), TrustError>)
    ensures
        r == cms_pss_signature(
            signed_attrs_der@,
            signature@,
            spki_der@,
            signature_algorithm@.parameters,
            digest_alg,
        ),
{
    let parameters: Option<&[u8]> = match &signature_algorithm.parameters {
        Some(p) => Some(p.as_slice()),
        None => None,
    };
    let hash = verify_rsa_pss_signature_strict(signed_attrs_der, signature, spki_der, parameters)?;
    if hash != digest_alg {
        return Err(TrustError::DigestDisagrees("RSASSA-PSS hashAlgorithm", hash, digest_alg));
    }
    Ok(())
}

/// The check of the signature over the signed attributes. An identifier that
/// fixes a hash must fix the declared one.
pub open spec fn cms_signature(
    attrs: Seq<u8>,
    signature: Seq<u8>,
    spki: Seq<u8>,
    algorithm: AlgorithmIdView,
    digest: DigestAlgorithm,
) -> Result<(), TrustError> {
    if algorithm.oid == OID_RSASSA_PSS@ {
        cms_pss_signature(attrs, signature, spki, algorithm.parameters, digest)
    } else if algorithm.oid != OID_RSA_ENCRYPTION@ && algorithm.oid != OID_EC_PUBLIC_KEY@
        && combined_digest(algorithm.oid) is Some && combined_digest(algorithm.oid) != Some(
        digest,
    ) {
        Err(
            TrustError::DigestDisagrees(
                "signatureAlgorithm hash",
                combined_digest(algorithm.oid)->0,
                digest,
            ),
        )
    } else {
        signature_by_oid(attrs, signature, spki, resolved_algorithm(algorithm.oid, digest), false)
    }
}

/// Checks the signature over the signed attributes.
pub fn verify_cms_signature(
    signed_attrs_der: &[u8],
    signature: &[u8],
    spki_der: &[u8],
    signature_algorithm: &AlgorithmId,
    digest_alg: DigestAlgorithm,
) -> (r: Result<(), TrustError>)
    ensures
        r == cms_signature(
            signed_attrs_der@,
            signature@,
            spki_der@,
            signature_algorithm@,
            digest_alg,
        ),
{
    let oid: &[u8] = signature_algorithm.oid.as_slice();
    if bytes_equal(oid, OID_RSASSA_PSS.as_slice()) {
        return verify_pss_signature(
            signed_attrs_der,
            signature,
            spki_der,
            signature_algorithm,
            digest_alg,
        );
    }
    if !bytes_equal(oid, OID_RSA_ENCRYPTION.as_slice()) && !bytes_equal(
        oid,
        OID_EC_PUBLIC_KEY.as_slice(),
    ) {
        match combined_oid_digest(oid) {
            Some(fixed) => {
                if fixed != digest_alg {
                    return Err(
                        TrustError::DigestDisagrees("signatureAlgorithm hash", fixed, digest_alg),
                    );
                }
            },
            None => {},
        }
    }
    let resolved: Vec<u8> = resolve_algorithm(oid, digest_alg);
    verify_signature_by_oid(signed_attrs_der, signature, spki_der, resolved.as_slice())
}

/// A signature is never accepted under an identifier whose hash is not the
/// declared one.
pub proof fn law_hash_agreement(
    attrs: Seq<u8>,
    signature: Seq<u8>,
    spki: Seq<u8>,
    algorithm: AlgorithmIdView,
    digest: DigestAlgorithm,
)
    requires
        cms_signature(attrs, signature, spki, algorithm, digest) is Ok,
        combined_digest(algorithm.oid) is Some,
    ensures
        combined_digest(algorithm.oid) == Some(digest),
{
    assert(OID_RSA_ENCRYPTION@[8] == 1 && OID_RSA_SHA256@[8] == 11 && OID_RSA_SHA384@[8] == 12
        && OID_RSA_SHA512@[8] == 13 && OID_RSASSA_PSS@[8] == 10);
    assert(OID_RSA_ENCRYPTION@.len() == 9 && OID_RSASSA_PSS@.len() == 9 && OID_EC_PUBLIC_KEY@.len()
        == 7 && OID_ECDSA_SHA256@.len() == 8 && OID_ECDSA_SHA384@.len() == 8
        && OID_ECDSA_SHA512@.len() == 8 && OID_RSA_SHA256@.len() == 9 && OID_RSA_SHA384@.len() == 9
        && OID_RSA_SHA512@.len() == 9);
}

/// No unsigned attribute claims a certificate binding.
pub open spec fn unsigned_attributes(attrs: Option<Seq<u8>>) -> Result<(), TspError> {
    match attrs {
        None => Ok(()),
        Some(der) => match attributes_of(der) {
            None => failed(Fault::Malformed("unsigned attributes")),
            Some(list) => if with_type(list, ID_SIGNING_CERTIFICATE@).len() > 0 || with_type(
                list,
                ID_SIGNING_CERTIFICATE_V2@,
            ).len() > 0 {
                failed(Fault::Text("ESS signing-certificate attribute must be signed"))
            } else {
                Ok(())
            },
        },
    }
}

fn has_attribute(attrs: &Vec<Attribute>, oid: &[u8]) -> (r: bool)
    ensures
        r == (with_type(attribute_views(attrs@), oid@).len() > 0),
{
    let ghost all = attribute_views(attrs@);
    let mut i: usize = 0;
    let mut found: bool = false;
    assert(all.take(0) =~= Seq::<AttributeView>::empty());
    while i < attrs.len()
        invariant
            i <= attrs.len(),
            all == attribute_views(attrs@),
            found == (with_type(all.take(i as int), oid@).len() > 0),
        decreases attrs.len() - i,
    {
        assert(all.take(i + 1).drop_last() =~= all.take(i as int));
        assert(all.take(i + 1).last() == attrs@[i as int]@);
        if bytes_equal(attrs[i].oid.as_slice(), oid) {
            found = true;
        }
        i += 1;
    }
    assert(all.take(attrs.len() as int) =~= all);
    found
}

fn check_unsigned_attributes(attrs: &Option<Vec<u8>>) -> (r: Result<(), TspError>)
    ensures
        r == unsigned_attributes(opt_view(*attrs)),
{
    match attrs {
        None => Ok(()),
        Some(der) => match decode_attributes(der.as_slice()) {
            None => Err(TspError::VerificationFailed(Fault::Malformed("unsigned attributes"))),
            Some(list) => if has_attribute(&list, ID_SIGNING_CERTIFICATE.as_slice())
                || has_attribute(&list, ID_SIGNING_CERTIFICATE_V2.as_slice()) {
                Err(
                    TspError::VerificationFailed(
                        Fault::Text("ESS signing-certificate attribute must be signed"),
                    ),
                )
            } else {
                Ok(())
            },
        },
    }
}

/// The signature of an opened token, under the certificate that signed it.
#[verifier::opaque]
pub open spec fn token_signature(
    token: OpenedTokenView,
    attrs: Seq<AttributeView>,
    signer: CertificateView,
) -> Result<(), TspError> {
    match signed_content(attrs, token.signer.digest_oid, token.content) {
        Err(e) => Err(e),
        Ok(digest) => match algorithm_id_of(token.signer.signature_algorithm) {
            None => failed(Fault::Malformed("SignerInfo signatureAlgorithm")),
            Some(algorithm) => match cms_signature(
                token.signed_attrs,
                token.signer.signature,
                signer.spki,
                algorithm,
                digest,
            ) {
                Err(e) => failed(Fault::Trust("TSA signature verification failed", e)),
                Ok(()) => Ok(()),
            },
        },
    }
}

fn check_token_signature(token: &OpenedToken, attrs: &Vec<Attribute>, signer: &Certificate) -> (r:
    Result<(), TspError>)
    ensures
        r == token_signature(token@, attribute_views(attrs@), signer@),
{
    proof {
        reveal(token_signature);
    }
    let digest = check_signed_content(
        attrs,
        token.signer.digest_oid.as_slice(),
        token.content.as_slice(),
    )?;
    let algorithm = match decode_algorithm_id(token.signer.signature_algorithm.as_slice()) {
        None => return Err(
            TspError::VerificationFailed(Fault::Malformed("SignerInfo signatureAlgorithm")),
        ),
        Some(a) => a,
    };
    match verify_cms_signature(
        token.signed_attrs.as_slice(),
        token.signer.signature.as_slice(),
        signer.spki.as_slice(),
        &algorithm,
        digest,
    ) {
        Err(e) => Err(
            TspError::VerificationFailed(Fault::Trust("TSA signature verification failed", e)),
        ),
        Ok(()) => Ok(()),
    }
}

/// The certificate has the profile of a timestamping certificate.
#[verifier::opaque]
pub open spec fn signer_profile(signer: CertificateView) -> Result<(), TspError> {
    match timestamping_eku(signer) {
        Err(e) => Err(e),
        Ok(()) => match not_ca(signer) {
            Err(e) => Err(e),
            Ok(()) => signing_key_usage(signer),
        },
    }
}

fn check_signer_profile(signer: &Certificate) -> (r: Result<(), TspError>)
    ensures
        r == signer_profile(signer@),
{
    proof {
        reveal(signer_profile);
    }
    require_timestamping_eku(signer)?;
    require_not_ca(signer)?;
    require_timestamp_signing_key_usage(signer)
}

/// What a token attests under a certificate: the TSTInfo, where it names that
/// certificate's subject and lies within its validity.
#[verifier::opaque]
pub open spec fn attested_info(content: Seq<u8>, signer: CertificateView) -> Result<
    TstInfoView,
    TspError,
> {
    match tst_info(content) {
        Err(e) => Err(e),
        Ok(info) => match tsa_identity(content, signer) {
            Err(e) => Err(e),
            Ok(()) => match gen_time_within(signer, info.gen_time_der) {
                Err(e) => Err(e),
                Ok(()) => Ok(info),
            },
        },
    }
}

fn read_attested_info(content: &[u8], signer: &Certificate) -> (r: Result<TstInfo, TspError>)
    ensures
        agrees(r, attested_info(content@, signer@)),
        r matches Ok(info) ==> tst_info(content@) == Ok::<TstInfoView, TspError>(info@),
{
    proof {
        reveal(attested_info);
    }
    let info = parse_tst_info_body(content)?;
    check_tsa_identity(content, signer)?;
    check_gen_time_within_validity(signer, &info)?;
    Ok(info)
}

/// A verified token: its signer, the certificates that came with it, and what it
/// attests.
#[verifier::opaque]
pub open spec fn verified_token(token: Seq<u8>, extra: Seq<CertificateView>) -> Result<
    (CertificateView, Seq<CertificateView>, TstInfoView),
    TspError,
> {
    match opened_token(token) {
        Err(e) => Err(e),
        Ok(opened) => match certificate_pool(opened.certificates, extra) {
            Err(e) => Err(e),
            Ok(pool) => match token_signer(opened, pool) {
                Err(e) => Err(e),
                Ok((signer, attrs)) => match token_signature(opened, attrs, signer) {
                    Err(e) => Err(e),
                    Ok(()) => match signer_profile(signer) {
                        Err(e) => Err(e),
                        Ok(()) => match attested_info(opened.content, signer) {
                            Err(e) => Err(e),
                            Ok(info) => Ok((signer, pool, info)),
                        },
                    },
                },
            },
        },
    }
}

/// The certificate that signed an opened token, and the signed attributes.
#[verifier::opaque]
pub open spec fn token_signer(opened: OpenedTokenView, pool: Seq<CertificateView>) -> Result<
    (CertificateView, Seq<AttributeView>),
    TspError,
> {
    match attributes_of(opened.signed_attrs) {
        None => failed(Fault::Malformed("signed attributes")),
        Some(attrs) => match ess_bindings(attrs) {
            Err(e) => Err(e),
            Ok(bindings) => match unsigned_attributes(opened.signer.unsigned_attrs) {
                Err(e) => Err(e),
                Ok(()) => match signing_certificate(pool, opened.signer.sid, bindings, 0) {
                    Err(e) => Err(e),
                    Ok(signer) => Ok((signer, attrs)),
                },
            },
        },
    }
}

fn find_token_signer(opened: &OpenedToken, pool: &Vec<Certificate>) -> (r: Result<
    (Certificate, Vec<Attribute>),
    TspError,
>)
    ensures
        match (r, token_signer(opened@, certificate_views(pool@))) {
            (Ok((signer, attrs)), Ok((c, a))) => signer@ == c && attribute_views(attrs@) == a,
            (Err(e), Err(f)) => e == f,
            _ => false,
        },
{
    proof {
        reveal(token_signer);
    }
    let attrs = match decode_attributes(opened.signed_attrs.as_slice()) {
        None => return Err(TspError::VerificationFailed(Fault::Malformed("signed attributes"))),
        Some(a) => a,
    };
    let bindings: Vec<EssBinding> = signing_certificate_bindings(&attrs)?;
    check_unsigned_attributes(&opened.signer.unsigned_attrs)?;
    let signer = find_signer(pool, &opened.signer.sid, &bindings)?;
    Ok((signer, attrs))
}

/// Verifies the signature, the certificate binding and the signer of a token.
pub fn verify_token_cms(token_der: &[u8], extra_certs: &[Certificate]) -> (r: Result<
    (VerifiedToken, TstInfo),
    TspError,
>)
    ensures
        match (r, verified_token(token_der@, certificate_views(extra_certs@))) {
            (Ok((token, info)), Ok((signer, pool, i))) => token.signer@ == signer
                && certificate_views(token.embedded@) == pool && info@ == i,
            (Err(e), Err(f)) => e == f,
            _ => false,
        },
        r matches Ok((_, info)) ==> token_tst_info(token_der@) == Ok::<TstInfoView, TspError>(info@),
{
    proof {
        reveal(verified_token);
    }
    let opened = open_token(token_der)?;
    let embedded: Vec<Certificate> = gather_certificates(&opened.certificates, extra_certs)?;
    let (signer, attrs) = find_token_signer(&opened, &embedded)?;
    check_token_signature(&opened, &attrs, &signer)?;
    check_signer_profile(&signer)?;
    let info = read_attested_info(opened.content.as_slice(), &signer)?;
    proof {
        reveal(is_token_content);
    }
    Ok((VerifiedToken { signer, embedded }, info))
}

/// The time of a verified token can be read.
proof fn lemma_verified_time(token: Seq<u8>, extra: Seq<CertificateView>)
    ensures
        verified_token(token, extra) matches Ok((_, _, info)) ==> gen_time(info.gen_time_der) is Ok,
{
    reveal(verified_token);
    reveal(attested_info);
}

/// What a token attests is what was asked for: the hash, its algorithm, and the
/// nonce where one was sent.
pub open spec fn tst_info_matches(
    info: TstInfoView,
    expected_hash: Seq<u8>,
    expected_nonce: Option<u64>,
    digest_algorithm: DigestAlgorithm,
) -> Result<(), TspError> {
    if info.message_hash != expected_hash {
        invalid(Fault::Text("TSTInfo messageImprint hash does not match request"))
    } else if info.hash_algorithm != digest_algorithm {
        invalid(Fault::HashAlgorithm(digest_algorithm, info.hash_algorithm))
    } else {
        match (expected_nonce, info.nonce) {
            (None, _) => Ok(()),
            (Some(expected), Some(actual)) => if expected == actual {
                Ok(())
            } else {
                invalid(Fault::Nonce(expected, actual))
            },
            (Some(_), None) => invalid(Fault::Text("expected nonce in TSTInfo but none present")),
        }
    }
}

/// Checks that a token attests what was asked for.
pub fn check_tst_info_matches(
    tst_info: &TstInfo,
    expected_hash: &[u8],
    expected_nonce: Option<u64>,
    digest_algorithm: DigestAlgorithm,
) -> (r: Result<(), TspError>)
    ensures
        r == tst_info_matches(tst_info@, expected_hash@, expected_nonce, digest_algorithm),
{
    if !same_bytes(tst_info.message_hash.as_slice(), expected_hash) {
        return Err(
            TspError::InvalidResponse(
                Fault::Text("TSTInfo messageImprint hash does not match request"),
            ),
        );
    }
    if tst_info.hash_algorithm != digest_algorithm {
        return Err(
            TspError::InvalidResponse(
                Fault::HashAlgorithm(digest_algorithm, tst_info.hash_algorithm),
            ),
        );
    }
    match expected_nonce {
        None => Ok(()),
        Some(expected) => match tst_info.nonce {
            Some(actual) => if same_number(actual, expected) {
                Ok(())
            } else {
                Err(TspError::InvalidResponse(Fault::Nonce(expected, actual)))
            },
            None => Err(
                TspError::InvalidResponse(
                    Fault::Text("expected nonce in TSTInfo but none present"),
                ),
            ),
        },
    }
}

/// The policy of a token is the one that was asked for, where one was.
pub open spec fn tst_policy(actual: Option<Seq<char>>, expected: Option<Seq<u8>>) -> Result<
    (),
    TspError,
> {
    if expected is Some && actual != Some(oid_text(expected->0)) {
        failed(Fault::Text("timestamp policy does not match requested policy"))
    } else {
        Ok(())
    }
}

fn same_text(a: &String, b: &String) -> (r: bool)
    ensures
        r == (a@ == b@),
{
    *a == *b
}

/// Checks the policy of a token against the one that was asked for.
pub fn check_tst_policy(actual: &Option<String>, expected: Option<&Oid>) -> (r: Result<
    (),
    TspError,
>)
    ensures
        r == tst_policy(opt_view(*actual), opt_view(expected)),
{
    match expected {
        None => Ok(()),
        Some(oid) => {
            let text: String = oid.to_text();
            match actual {
                Some(policy) => {
                    if same_text(policy, &text) {
                        return Ok(());
                    }
                },
                None => {},
            }
            Err(
                TspError::VerificationFailed(
                    Fault::Text("timestamp policy does not match requested policy"),
                ),
            )
        },
    }
}

/// The token of a successful response, where it verifies and attests what was
/// asked for.
pub open spec fn accepted_token(
    token: Option<Seq<u8>>,
    expected_hash: Seq<u8>,
    expected_nonce: Option<u64>,
    digest_algorithm: DigestAlgorithm,
    extra: Seq<CertificateView>,
    expected_policy: Option<Seq<u8>>,
) -> Result<Seq<u8>, TspError> {
    match token {
        None => invalid(Fault::Text("no token in response despite success status")),
        Some(der) => match verified_token(der, extra) {
            Err(e) => Err(e),
            Ok((_, _, info)) => match tst_info_matches(
                info,
                expected_hash,
                expected_nonce,
                digest_algorithm,
            ) {
                Err(e) => Err(e),
                Ok(()) => match tst_policy(info.policy_oid, expected_policy) {
                    Err(e) => Err(e),
                    Ok(()) => Ok(der),
                },
            },
        },
    }
}

/// Validates a response; returns its token. A status that is no success is
/// reported with its text.
pub fn validate_timestamp_response_for_policy(
    resp: &TimeStampResp,
    expected_hash: &[u8],
    expected_nonce: Option<u64>,
    digest_algorithm: DigestAlgorithm,
    extra_certs: &[Certificate],
    expected_policy: Option<&Oid>,
) -> (r: Result<Vec<u8>, TspError>)
    ensures
        !resp.status.success() ==> (r matches Err(TspError::TsaError { status, message }) && status
            == resp.status && opt_view(message) == opt_view(resp.status_string)),
        resp.status.success() ==> agrees(
            r,
            accepted_token(
                opt_view(resp.token_der),
                expected_hash@,
                expected_nonce,
                digest_algorithm,
                certificate_views(extra_certs@),
                opt_view(expected_policy),
            ),
        ),
{
    if !resp.status.is_success() {
        let message: Option<String> = match &resp.status_string {
            Some(text) => Some(text.clone()),
            None => None,
        };
        return Err(TspError::TsaError { status: resp.status, message });
    }
    let token_der = match &resp.token_der {
        None => return Err(
            TspError::InvalidResponse(Fault::Text("no token in response despite success status")),
        ),
        Some(t) => t,
    };
    let (_, info) = verify_token_cms(token_der.as_slice(), extra_certs)?;
    check_tst_info_matches(&info, expected_hash, expected_nonce, digest_algorithm)?;
    check_tst_policy(&info.policy_oid, expected_policy)?;
    Ok(to_vec(token_der.as_slice()))
}

/// Validates a response under any policy; returns its token.
pub fn validate_timestamp_response(
    resp: &TimeStampResp,
    expected_hash: &[u8],
    expected_nonce: Option<u64>,
    digest_algorithm: DigestAlgorithm,
    extra_certs: &[Certificate],
) -> (r: Result<Vec<u8>, TspError>)
    ensures
        !resp.status.success() ==> (r matches Err(TspError::TsaError { status, message }) && status
            == resp.status && opt_view(message) == opt_view(resp.status_string)),
        resp.status.success() ==> agrees(
            r,
            accepted_token(
                opt_view(resp.token_der),
                expected_hash@,
                expected_nonce,
                digest_algorithm,
                certificate_views(extra_certs@),
                None,
            ),
        ),
{
    validate_timestamp_response_for_policy(
        resp,
        expected_hash,
        expected_nonce,
        digest_algorithm,
        extra_certs,
        None,
    )
}

/// The path that is put to a trust store for a token: the signer and its issuers,
/// at the given time, or else at the time of the token with its fraction.
pub open spec fn timestamp_path(
    signer: CertificateView,
    pool: Seq<CertificateView>,
    gen_time_der: Seq<u8>,
    legacy: bool,
    validation_time: Option<CivilTime>,
) -> PathQueryView {
    PathQueryView {
        chain: grown_chain(seq![signer], pool, legacy, MAX_CHAIN_STEPS as nat),
        at: match validation_time {
            Some(t) => t,
            None => gen_time(gen_time_der)->Ok_0.0,
        },
        positive_fraction: validation_time is None && gen_time(gen_time_der)->Ok_0.1,
        role: CertRole::TimestampSigner,
        legacy,
    }
}

/// What a trust store's verdict on the path of a token means for the token.
pub open spec fn after_path_verdict(
    info: TstInfoView,
    verdict: Result<(), TrustError>,
) -> Result<TstInfoView, TspError> {
    match verdict {
        Err(e) => failed(Fault::Trust("TSA certificate chain validation failed", e)),
        Ok(()) => Ok(info),
    }
}

/// Concludes the verification of a token from a trust store's verdict on its path.
pub fn conclude_token(info: TstInfo, verdict: Result<(), TrustError>) -> (r: Result<
    TstInfo,
    TspError,
>)
    ensures
        agrees(r, after_path_verdict(info@, verdict)),
{
    match verdict {
        Err(e) => Err(
            TspError::VerificationFailed(
                Fault::Trust("TSA certificate chain validation failed", e),
            ),
        ),
        Ok(()) => Ok(info),
    }
}

/// A token verifies and attests what was asked for.
pub open spec fn matching_token(
    token: Seq<u8>,
    expected_hash: Seq<u8>,
    digest_algorithm: DigestAlgorithm,
    expected_nonce: Option<u64>,
    extra: Seq<CertificateView>,
) -> Result<(CertificateView, Seq<CertificateView>, TstInfoView), TspError> {
    match verified_token(token, extra) {
        Err(e) => Err(e),
        Ok((signer, pool, info)) => match tst_info_matches(
            info,
            expected_hash,
            expected_nonce,
            digest_algorithm,
        ) {
            Err(e) => Err(e),
            Ok(()) => Ok((signer, pool, info)),
        },
    }
}

/// `r` is a result of verifying a token against a hash and a nonce: where a trust
/// store is given, what a verdict of it on the path of the token means.
pub open spec fn token_checked<P: Fn(&TrustQuery) -> Result<(), TrustError>>(
    token: Seq<u8>,
    expected_hash: Seq<u8>,
    digest_algorithm: DigestAlgorithm,
    expected_nonce: Option<u64>,
    trust_store: Option<&TrustStore<P>>,
    validation_time: Option<CivilTime>,
    extra: Seq<CertificateView>,
    r: Result<TstInfo, TspError>,
) -> bool {
    match matching_token(token, expected_hash, digest_algorithm, expected_nonce, extra) {
        Err(e) => agrees(r, Err(e)),
        Ok((signer, pool, info)) => match trust_store {
            None => agrees(r, Ok(info)),
            Some(store) => exists|verdict: Result<(), TrustError>|
                #[trigger] store.answers(
                    TrustQueryView::Path(
                        timestamp_path(
                            signer,
                            pool,
                            info.gen_time_der,
                            store.policy.legacy(),
                            validation_time,
                        ),
                    ),
                    verdict,
                ) && agrees(r, after_path_verdict(info, verdict)),
        },
    }
}

/// Verifies a token against a hash and a nonce, and its certificate path against
/// a trust store where one is given.
pub fn verify_timestamp_token<P: Fn(&TrustQuery) -> Result<(), TrustError>>(
    token_der: &[u8],
    expected_hash: &[u8],
    digest_algorithm: DigestAlgorithm,
    expected_nonce: Option<u64>,
    trust_store: Option<&TrustStore<P>>,
    validation_time: Option<CivilTime>,
    extra_certs: &[Certificate],
) -> (r: Result<TstInfo, TspError>)
    requires
        trust_store matches Some(store) ==> store.total(),
    ensures
        token_checked(
            token_der@,
            expected_hash@,
            digest_algorithm,
            expected_nonce,
            trust_store,
            validation_time,
            certificate_views(extra_certs@),
            r,
        ),
        r matches Ok(info) ==> token_tst_info(token_der@) == Ok::<TstInfoView, TspError>(info@),
{
    proof {
        lemma_verified_time(token_der@, certificate_views(extra_certs@));
    }
    let (verified, info) = verify_token_cms(token_der, extra_certs)?;
    check_tst_info_matches(&info, expected_hash, expected_nonce, digest_algorithm)?;
    match trust_store {
        None => Ok(info),
        Some(store) => {
            let chain: Vec<Certificate> = order_chain(
                &verified.signer,
                verified.embedded.as_slice(),
                store.signature_policy(),
            );
            let (at, positive_fraction): (CivilTime, bool) = match validation_time {
                Some(t) => (t, false),
                None => gen_time_parts(&info)?,
            };
            let query = PathQuery {
                chain,
                at,
                positive_fraction,
                role: CertRole::TimestampSigner,
                policy: store.signature_policy(),
            };
            let verdict = store.verify_path(query);
            conclude_token(info, verdict)
        },
    }
}

/// The path of a token is put to a trust store for the time of the token, unless
/// another is given: where that time has no fraction, giving it changes nothing.
pub proof fn law_default_path_time(
    signer: CertificateView,
    pool: Seq<CertificateView>,
    gen_time_der: Seq<u8>,
    legacy: bool,
    t: CivilTime,
)
    requires
        gen_time(gen_time_der) == Ok::<(CivilTime, bool), TspError>((t, false)),
    ensures
        timestamp_path(signer, pool, gen_time_der, legacy, None) == timestamp_path(
            signer,
            pool,
            gen_time_der,
            legacy,
            Some(t),
        ),
{
}

/// The validation time defaults to the time of the token: for a token whose time
/// has no fraction, the results that are possible without a validation time are
/// those that are possible with the time of the token. Where the token matches
/// what was asked for, each is the TSTInfo or a failed verification.
pub proof fn law_default_validation_time<P: Fn(&TrustQuery) -> Result<(), TrustError>>(
    token: Seq<u8>,
    expected_hash: Seq<u8>,
    digest_algorithm: DigestAlgorithm,
    expected_nonce: Option<u64>,
    trust_store: Option<&TrustStore<P>>,
    extra: Seq<CertificateView>,
    t: CivilTime,
    r: Result<TstInfo, TspError>,
)
    requires
        matching_token(token, expected_hash, digest_algorithm, expected_nonce, extra) matches Ok((
            _,
            _,
            info,
        )) && gen_time(info.gen_time_der) == Ok::<(CivilTime, bool), TspError>((t, false)),
    ensures
        token_checked(
            token,
            expected_hash,
            digest_algorithm,
            expected_nonce,
            trust_store,
            None,
            extra,
            r,
        ) <==> token_checked(
            token,
            expected_hash,
            digest_algorithm,
            expected_nonce,
            trust_store,
            Some(t),
            extra,
            r,
        ),
        token_checked(
            token,
            expected_hash,
            digest_algorithm,
            expected_nonce,
            trust_store,
            None,
            extra,
            r,
        ) ==> match r {
            Ok(i) => i@ == matching_token(
                token,
                expected_hash,
                digest_algorithm,
                expected_nonce,
                extra,
            )->Ok_0.2,
            Err(e) => e is VerificationFailed,
        },
{
    let (signer, pool, info) = matching_token(
        token,
        expected_hash,
        digest_algorithm,
        expected_nonce,
        extra,
    )->Ok_0;
    match trust_store {
        Some(store) => law_default_path_time(
            signer,
            pool,
            info.gen_time_der,
            store.policy.legacy(),
            t,
        ),
        None => {},
    }
}

/// Two verifications of a token whose time has no fraction agree, where one leaves
/// out the validation time and the other gives the time of the token, and the trust
/// store answers equal questions alike: both give the same TSTInfo, or both fail with
/// the same error.
pub proof fn law_default_time_gives_the_same_result<
    P: Fn(&TrustQuery) -> Result<(), TrustError>,
>(
    token: Seq<u8>,
    expected_hash: Seq<u8>,
    digest_algorithm: DigestAlgorithm,
    expected_nonce: Option<u64>,
    store: &TrustStore<P>,
    extra: Seq<CertificateView>,
    t: CivilTime,
    default: Result<TstInfo, TspError>,
    given: Result<TstInfo, TspError>,
)
    requires
        store.consistent(),
        matching_token(token, expected_hash, digest_algorithm, expected_nonce, extra) matches Ok((
            _,
            _,
            info,
        )) && gen_time(info.gen_time_der) == Ok::<(CivilTime, bool), TspError>((t, false)),
        token_checked(
            token,
            expected_hash,
            digest_algorithm,
            expected_nonce,
            Some(store),
            None,
            extra,
            default,
        ),
        token_checked(
            token,
            expected_hash,
            digest_algorithm,
            expected_nonce,
            Some(store),
            Some(t),
            extra,
            given,
        ),
    ensures
        match (default, given) {
            (Ok(a), Ok(b)) => a@ == b@,
            (Err(e), Err(f)) => e == f && e is VerificationFailed,
            _ => false,
        },
{
    let (signer, pool, info) = matching_token(
        token,
        expected_hash,
        digest_algorithm,
        expected_nonce,
        extra,
    )->Ok_0;
    law_default_path_time(signer, pool, info.gen_time_der, store.policy.legacy(), t);
}

proof fn lemma_bindings_match(bindings: Seq<EssBindingView>, cert: CertificateView, k: nat)
    requires
        all_bindings_match(bindings, cert, k) == Ok::<bool, TspError>(true),
    ensures
        forall|j: int|
            k <= j < bindings.len() ==> binding_matches(#[trigger] bindings[j], cert) == Ok::<
                bool,
                TspError,
            >(true),
    decreases bindings.len() - k,
{
    if k < bindings.len() {
        lemma_bindings_match(bindings, cert, k + 1);
    }
}

proof fn lemma_signing_certificate(
    pool: Seq<CertificateView>,
    sid: SignerIdView,
    bindings: Seq<EssBindingView>,
    i: nat,
)
    ensures
        signing_certificate(pool, sid, bindings, i) matches Ok(signer) ==> pool.contains(signer)
            && signer_id_matches(sid, signer) && all_bindings_match(bindings, signer, 0) == Ok::<
            bool,
            TspError,
        >(true),
    decreases pool.len() - i,
{
    if i < pool.len() {
        lemma_signing_certificate(pool, sid, bindings, i + 1);
    }
}

/// The signed attributes of an opened token bind a certificate: there is a binding,
/// every binding identifies the certificate, and none stands outside the signed
/// attributes.
pub open spec fn binds_certificate(opened: OpenedTokenView, signer: CertificateView) -> bool {
    &&& attributes_of(opened.signed_attrs) matches Some(attrs)
    &&& ess_bindings(attrs) matches Ok(bindings)
    &&& bindings.len() > 0
    &&& forall|j: int|
        0 <= j < bindings.len() ==> binding_matches(#[trigger] bindings[j], signer) == Ok::<
            bool,
            TspError,
        >(true)
    &&& unsigned_attributes(opened.signer.unsigned_attrs) is Ok
}

/// The signature of an opened token covers its content: it verifies under the
/// certificate over the signed attributes, and they hold the type and the hash of
/// the content.
pub open spec fn signature_covers_content(opened: OpenedTokenView, signer: CertificateView) -> bool {
    &&& attributes_of(opened.signed_attrs) matches Some(attrs)
    &&& signed_content(attrs, opened.signer.digest_oid, opened.content) matches Ok(digest)
    &&& algorithm_id_of(opened.signer.signature_algorithm) matches Some(algorithm)
    &&& cms_signature(
        opened.signed_attrs,
        opened.signer.signature,
        signer.spki,
        algorithm,
        digest,
    ) is Ok
}

proof fn lemma_token_signer(opened: OpenedTokenView, pool: Seq<CertificateView>)
    ensures
        token_signer(opened, pool) matches Ok((signer, attrs)) ==> pool.contains(signer)
            && signer_id_matches(opened.signer.sid, signer) && binds_certificate(opened, signer)
            && attributes_of(opened.signed_attrs) == Some(attrs),
{
    reveal(token_signer);
    match token_signer(opened, pool) {
        Ok((signer, attrs)) => {
            let bindings = ess_bindings(attrs)->Ok_0;
            lemma_signing_certificate(pool, opened.signer.sid, bindings, 0);
            lemma_bindings_match(bindings, signer, 0);
        },
        Err(_) => {},
    }
}

proof fn lemma_token_signature(
    opened: OpenedTokenView,
    attrs: Seq<AttributeView>,
    signer: CertificateView,
)
    requires
        attributes_of(opened.signed_attrs) == Some(attrs),
        token_signature(opened, attrs, signer) is Ok,
    ensures
        signature_covers_content(opened, signer),
{
    reveal(token_signature);
}

/// What a verified token guarantees: the signer is among the certificates and is
/// the one that the token names and binds; the signature covers the content; the
/// signer may only sign timestamps; and the content is the TSTInfo, which lies
/// within the validity of the signer and names no other authority.
pub proof fn law_verified_token(token: Seq<u8>, extra: Seq<CertificateView>)
    requires
        verified_token(token, extra) is Ok,
    ensures
        opened_token(token) is Ok,
        ({
            let opened = opened_token(token)->Ok_0;
            let (signer, pool, info) = verified_token(token, extra)->Ok_0;
            &&& pool.contains(signer)
            &&& signer_id_matches(opened.signer.sid, signer)
            &&& binds_certificate(opened, signer)
            &&& signature_covers_content(opened, signer)
            &&& timestamping_eku(signer) is Ok && not_ca(signer) is Ok
                && signing_key_usage(signer) is Ok
            &&& tst_info(opened.content) == Ok::<TstInfoView, TspError>(info)
            &&& tsa_identity(opened.content, signer) is Ok
            &&& gen_time_within(signer, info.gen_time_der) is Ok
        }),
{
    reveal(verified_token);
    let opened = opened_token(token)->Ok_0;
    let (signer, pool, _) = verified_token(token, extra)->Ok_0;
    let (_, attrs) = token_signer(opened, pool)->Ok_0;
    lemma_token_signer(opened, pool);
    lemma_token_signature(opened, attrs, signer);
    reveal(signer_profile);
    reveal(attested_info);
}

/// A token that is accepted for a hash and a nonce attests that hash, and that
/// nonce where one was expected.
pub proof fn law_accepted_token(
    token: Seq<u8>,
    expected_hash: Seq<u8>,
    digest_algorithm: DigestAlgorithm,
    expected_nonce: Option<u64>,
    extra: Seq<CertificateView>,
)
    ensures
        matching_token(token, expected_hash, digest_algorithm, expected_nonce, extra) matches Ok((
            signer,
            pool,
            info,
        )) ==> info.message_hash == expected_hash && info.hash_algorithm == digest_algorithm && (
        expected_nonce is Some ==> info.nonce == expected_nonce),
{
}

} // verus!
