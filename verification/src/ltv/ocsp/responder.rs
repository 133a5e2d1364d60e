//! Who may sign an OCSP response.

use vstd::prelude::*;

use crate::asn1::{
    decode_basic_constraints, decode_extended_key_usage, decode_general_names, decode_key_usage,
    has_nonzero_padding, Extension,
};
use crate::bytes::{bytes_equal, contains_bytes, to_vec};
use crate::cert::{
    certs_have_same_identity, find_extensions, Certificate, ID_CE_BASIC_CONSTRAINTS,
    ID_CE_EXT_KEY_USAGE, ID_CE_KEY_USAGE, ID_CE_SUBJECT_ALT_NAME,
};
use crate::crypto::verify::{
    verify_certificate_signature_with_policy, verify_signature_by_algid_with_policy,
    SignaturePolicy,
};
use crate::error::{Fault, LtvError, TrustError};
use crate::ltv::ocsp::request::sha1_hash;
use crate::ltv::ocsp::response::{ParsedBasicOcspResponse, ResponderId};
use crate::time::UtcTime;
use crate::tsp::signer::read_bit_string;
use crate::tsp::tst_info::DER_NULL;
#[allow(unused_imports)]
use crate::agrees;
#[allow(unused_imports)]
use crate::asn1::{
    basic_constraints_of, extended_key_usage_of, extension_views, general_names_of, key_usage_of,
    nonzero_padding, ExtensionView,
};
#[allow(unused_imports)]
use crate::bytes::views;
#[allow(unused_imports)]
use crate::cert::{
    certificate_of, certificate_views, extension_list, same_identity, with_identifier,
    CertificateView,
};
#[allow(unused_imports)]
use crate::crypto::verify::{certificate_signature, signature_by_algorithm};
#[allow(unused_imports)]
use crate::ltv::ocsp::request::sha1;
#[allow(unused_imports)]
use crate::ltv::ocsp::response::{ocsp, BasicResponseView, ResponderIdView};
#[allow(unused_imports)]
use crate::tsp::signer::bit_string_element;

verus! {

/// id-kp-OCSPSigning.
pub const ID_KP_OCSP_SIGNING: [u8; 8] = [0x2B, 0x06, 0x01, 0x05, 0x05, 0x07, 0x03, 0x09];

/// id-pkix-ocsp-nocheck.
pub const ID_PKIX_OCSP_NOCHECK: [u8; 9] = [0x2B, 0x06, 0x01, 0x05, 0x05, 0x07, 0x30, 0x01, 0x05];

/// Whether the responder's own certificate must be checked for revocation.
#[derive(Debug, Clone, Copy, PartialEq, Eq, Structural)]
pub enum ResponderRevocationCheck {
    /// It need not: the responder is the issuer, or its certificate says so.
    NotRequired,
    /// It must.
    Required,
}

/// The certificates from index `i` on that can be decoded, after those of `found`.
pub open spec fn decodable_certificates(
    list: Seq<Seq<u8>>,
    i: nat,
    found: Seq<CertificateView>,
) -> Seq<CertificateView>
    decreases list.len() - i,
{
    if i >= list.len() {
        found
    } else {
        match certificate_of(list[i as int]) {
            None => decodable_certificates(list, i + 1, found),
            Some(c) => decodable_certificates(list, i + 1, found.push(c)),
        }
    }
}

/// A certificate's key verifies the signature of a response.
pub open spec fn signed_by(parsed: BasicResponseView, c: CertificateView, legacy: bool) -> bool {
    signature_by_algorithm(
        parsed.tbs_response_data,
        parsed.signature_bytes,
        c.spki,
        parsed.signature_algorithm,
        legacy,
    ) is Ok
}

/// The first certificate from index `i` on whose key verifies the response. The
/// issuer itself stands for a certificate with the issuer's name and key.
pub open spec fn response_signer(
    candidates: Seq<CertificateView>,
    i: nat,
    parsed: BasicResponseView,
    issuer: CertificateView,
    legacy: bool,
) -> Result<CertificateView, LtvError>
    decreases candidates.len() - i,
{
    if i >= candidates.len() {
        ocsp(
            Fault::Text(
                "OCSP response signature could not be verified against any candidate certificate",
            ),
        )
    } else if signed_by(parsed, candidates[i as int], legacy) {
        Ok(
            if same_identity(candidates[i as int], issuer) {
                issuer
            } else {
                candidates[i as int]
            },
        )
    } else {
        response_signer(candidates, i + 1, parsed, issuer, legacy)
    }
}

/// The certificates that may have signed a response: those that came with it, and
/// then the issuer.
pub open spec fn signer_candidates(parsed: BasicResponseView, issuer: CertificateView) -> Seq<
    CertificateView,
> {
    decodable_certificates(parsed.embedded_certs_der, 0, Seq::empty()).push(issuer)
}

/// The certificate that signed a response.
pub open spec fn verified_signer(
    parsed: BasicResponseView,
    issuer: CertificateView,
    legacy: bool,
) -> Result<CertificateView, LtvError> {
    response_signer(signer_candidates(parsed, issuer), 0, parsed, issuer, legacy)
}

fn gather_candidates(parsed: &ParsedBasicOcspResponse, issuer: &Certificate) -> (r: Vec<
    Certificate,
>)
    ensures
        certificate_views(r@) == signer_candidates(parsed@, issuer@),
{
    let list = &parsed.embedded_certs_der;
    let ghost encoded = views(list@);
    let mut found: Vec<Certificate> = Vec::new();
    assert(certificate_views(found@) =~= Seq::<CertificateView>::empty());
    let mut i: usize = 0;
    while i < list.len()
        invariant
            i <= list.len(),
            encoded == views(list@),
            decodable_certificates(encoded, i as nat, certificate_views(found@))
                == decodable_certificates(encoded, 0, Seq::empty()),
        decreases list.len() - i,
    {
        assert(encoded[i as int] == list@[i as int]@);
        match Certificate::from_der(list[i].as_slice()) {
            None => {},
            Some(c) => {
                let ghost before = certificate_views(found@);
                found.push(c);
                assert(certificate_views(found@) =~= before.push(c@));
            },
        }
        i += 1;
    }
    let ghost before = certificate_views(found@);
    found.push(issuer.duplicate());
    assert(certificate_views(found@) =~= before.push(issuer@));
    found
}

/// Finds the certificate that signed a response.
pub fn verify_ocsp_response_signature(
    parsed: &ParsedBasicOcspResponse,
    issuer: &Certificate,
    policy: &SignaturePolicy,
) -> (r: Result<Certificate, LtvError>)
    ensures
        agrees(r, verified_signer(parsed@, issuer@, policy.legacy())),
{
    let candidates: Vec<Certificate> = gather_candidates(parsed, issuer);
    let ghost all = certificate_views(candidates@);
    let mut i: usize = 0;
    while i < candidates.len()
        invariant
            i <= candidates.len(),
            all == certificate_views(candidates@),
            response_signer(all, i as nat, parsed@, issuer@, policy.legacy()) == verified_signer(
                parsed@,
                issuer@,
                policy.legacy(),
            ),
        decreases candidates.len() - i,
    {
        let c = &candidates[i];
        assert(all[i as int] == c@);
        if verify_signature_by_algid_with_policy(
            parsed.tbs_response_data.as_slice(),
            parsed.signature_bytes.as_slice(),
            c.spki.as_slice(),
            &parsed.signature_algorithm,
            policy,
        ).is_ok() {
            if certs_have_same_identity(c, issuer) {
                return Ok(issuer.duplicate());
            }
            return Ok(c.duplicate());
        }
        i += 1;
    }
    Err(
        LtvError::Ocsp(
            Fault::Text(
                "OCSP response signature could not be verified against any candidate certificate",
            ),
        ),
    )
}

/// A certificate is the one that a responder identifier names.
pub open spec fn responder_matches(cert: CertificateView, id: ResponderIdView) -> Result<
    (),
    LtvError,
> {
    match id {
        ResponderIdView::ByName(name) => if cert.subject != name {
            ocsp(
                Fault::Text(
                    "OCSP responder certificate subject does not match responderID (byName)",
                ),
            )
        } else {
            Ok(())
        },
        ResponderIdView::ByKeyHash(hash) => match sha1(cert.public_key) {
            Err(e) => Err(e),
            Ok(computed) => if computed != hash {
                ocsp(
                    Fault::Text(
                        "OCSP responder certificate key hash does not match responderID (byKeyHash)",
                    ),
                )
            } else {
                Ok(())
            },
        },
    }
}

/// Checks that a certificate is the one that a responder identifier names.
pub fn responder_matches_responder_id(responder_cert: &Certificate, responder_id: &ResponderId) ->
(r: Result<(), LtvError>)
    ensures
        r == responder_matches(responder_cert@, responder_id@),
{
    match responder_id {
        ResponderId::ByName(name) => {
            if !bytes_equal(responder_cert.subject.as_slice(), name.as_slice()) {
                return Err(
                    LtvError::Ocsp(
                        Fault::Text(
                            "OCSP responder certificate subject does not match responderID (byName)",
                        ),
                    ),
                );
            }
            Ok(())
        },
        ResponderId::ByKeyHash(hash) => {
            let computed: Vec<u8> = sha1_hash(responder_cert.public_key.as_slice())?;
            if !bytes_equal(computed.as_slice(), hash.as_slice()) {
                return Err(
                    LtvError::Ocsp(
                        Fault::Text(
                            "OCSP responder certificate key hash does not match responderID (byKeyHash)",
                        ),
                    ),
                );
            }
            Ok(())
        },
    }
}

/// A responder's key usage is well padded and permits digital signatures or
/// non-repudiation.
pub open spec fn responder_key_usage(value: Seq<u8>) -> Result<(), LtvError> {
    match bit_string_element(value) {
        None => ocsp(Fault::Malformed("responder keyUsage")),
        Some((unused, octets)) => if octets.len() == 0 || nonzero_padding(unused, octets) {
            ocsp(Fault::Text("responder keyUsage has invalid padding/content"))
        } else {
            match key_usage_of(value) {
                None => ocsp(Fault::Malformed("responder keyUsage")),
                Some((digital_signature, non_repudiation)) => if !digital_signature
                    && !non_repudiation {
                    ocsp(
                        Fault::Text("OCSP responder certificate keyUsage does not permit signing"),
                    )
                } else {
                    Ok(())
                },
            }
        },
    }
}

fn check_responder_key_usage(value: &[u8]) -> (r: Result<(), LtvError>)
    ensures
        r == responder_key_usage(value@),
{
    match read_bit_string(value) {
        None => return Err(LtvError::Ocsp(Fault::Malformed("responder keyUsage"))),
        Some((unused, octets)) => {
            if octets.len() == 0 || has_nonzero_padding(unused, octets) {
                return Err(
                    LtvError::Ocsp(Fault::Text("responder keyUsage has invalid padding/content")),
                );
            }
        },
    }
    match decode_key_usage(value) {
        None => Err(LtvError::Ocsp(Fault::Malformed("responder keyUsage"))),
        Some((digital_signature, non_repudiation)) => if !digital_signature && !non_repudiation {
            Err(
                LtvError::Ocsp(
                    Fault::Text("OCSP responder certificate keyUsage does not permit signing"),
                ),
            )
        } else {
            Ok(())
        },
    }
}

/// Whether an extension of a delegated responder is one that is processed; an
/// error where it is and is not acceptable.
pub open spec fn processed_extension(e: ExtensionView) -> Result<bool, LtvError> {
    if e.extn_id == ID_CE_KEY_USAGE@ {
        match responder_key_usage(e.extn_value) {
            Err(f) => Err(f),
            Ok(()) => Ok(true),
        }
    } else if e.extn_id == ID_CE_BASIC_CONSTRAINTS@ {
        if basic_constraints_of(e.extn_value) is None {
            ocsp(Fault::Malformed("responder basicConstraints"))
        } else {
            Ok(true)
        }
    } else if e.extn_id == ID_CE_EXT_KEY_USAGE@ {
        if extended_key_usage_of(e.extn_value) is None {
            ocsp(Fault::Malformed("responder extendedKeyUsage"))
        } else {
            Ok(true)
        }
    } else if e.extn_id == ID_CE_SUBJECT_ALT_NAME@ {
        if general_names_of(e.extn_value) is None {
            ocsp(Fault::Malformed("responder subjectAltName"))
        } else {
            Ok(true)
        }
    } else if e.extn_id == ID_PKIX_OCSP_NOCHECK@ {
        if e.extn_value != DER_NULL@ {
            ocsp(Fault::Text("OCSP responder nocheck extension is not DER NULL"))
        } else {
            Ok(true)
        }
    } else {
        Ok(false)
    }
}

fn process_extension(e: &Extension) -> (r: Result<bool, LtvError>)
    ensures
        r == processed_extension(e@),
{
    let id: &[u8] = e.extn_id.as_slice();
    let value: &[u8] = e.extn_value.as_slice();
    if bytes_equal(id, ID_CE_KEY_USAGE.as_slice()) {
        check_responder_key_usage(value)?;
        Ok(true)
    } else if bytes_equal(id, ID_CE_BASIC_CONSTRAINTS.as_slice()) {
        if decode_basic_constraints(value).is_none() {
            return Err(LtvError::Ocsp(Fault::Malformed("responder basicConstraints")));
        }
        Ok(true)
    } else if bytes_equal(id, ID_CE_EXT_KEY_USAGE.as_slice()) {
        if decode_extended_key_usage(value).is_none() {
            return Err(LtvError::Ocsp(Fault::Malformed("responder extendedKeyUsage")));
        }
        Ok(true)
    } else if bytes_equal(id, ID_CE_SUBJECT_ALT_NAME.as_slice()) {
        if decode_general_names(value).is_none() {
            return Err(LtvError::Ocsp(Fault::Malformed("responder subjectAltName")));
        }
        Ok(true)
    } else if bytes_equal(id, ID_PKIX_OCSP_NOCHECK.as_slice()) {
        if !bytes_equal(value, DER_NULL.as_slice()) {
            return Err(
                LtvError::Ocsp(Fault::Text("OCSP responder nocheck extension is not DER NULL")),
            );
        }
        Ok(true)
    } else {
        Ok(false)
    }
}

/// The extensions of a delegated responder from index `i` on: none twice or among
/// `seen`, and every critical one processed.
pub open spec fn responder_extension_list(
    list: Seq<ExtensionView>,
    i: nat,
    seen: Seq<Seq<u8>>,
) -> Result<(), LtvError>
    decreases list.len() - i,
{
    if i >= list.len() {
        Ok(())
    } else {
        let e = list[i as int];
        if seen.contains(e.extn_id) {
            ocsp(Fault::Text("OCSP responder certificate has duplicate extension"))
        } else {
            match processed_extension(e) {
                Err(f) => Err(f),
                Ok(processed) => if e.critical && !processed {
                    ocsp(
                        Fault::Text(
                            "OCSP responder certificate has an unprocessed critical extension",
                        ),
                    )
                } else {
                    responder_extension_list(list, i + 1, seen.push(e.extn_id))
                },
            }
        }
    }
}

/// A certificate may act as delegated OCSP responder: its first extended key usage
/// holds id-kp-OCSPSigning.
pub open spec fn ocsp_signing_purpose(cert: CertificateView) -> bool {
    let matching = with_identifier(extension_list(cert), ID_CE_EXT_KEY_USAGE@);
    matching.len() > 0 && (extended_key_usage_of(matching[0].extn_value) matches Some(purposes)
        && purposes.contains(ID_KP_OCSP_SIGNING@))
}

/// The profile of a delegated responder's certificate.
pub open spec fn delegated_profile(cert: CertificateView) -> Result<(), LtvError> {
    match responder_extension_list(extension_list(cert), 0, Seq::empty()) {
        Err(e) => Err(e),
        Ok(()) => if ocsp_signing_purpose(cert) {
            Ok(())
        } else {
            ocsp(
                Fault::Text(
                    "OCSP responder certificate profile: extendedKeyUsage lacks id-kp-OCSPSigning",
                ),
            )
        },
    }
}

fn check_extension_list(list: &Vec<Extension>) -> (r: Result<(), LtvError>)
    ensures
        r == responder_extension_list(extension_views(list@), 0, Seq::empty()),
{
    let ghost all = extension_views(list@);
    let mut seen: Vec<Vec<u8>> = Vec::new();
    assert(views(seen@) =~= Seq::<Seq<u8>>::empty());
    let mut i: usize = 0;
    while i < list.len()
        invariant
            i <= list.len(),
            all == extension_views(list@),
            responder_extension_list(all, i as nat, views(seen@)) == responder_extension_list(
                all,
                0,
                Seq::empty(),
            ),
        decreases list.len() - i,
    {
        let e = &list[i];
        assert(all[i as int] == e@);
        if contains_bytes(&seen, e.extn_id.as_slice()) {
            return Err(
                LtvError::Ocsp(Fault::Text("OCSP responder certificate has duplicate extension")),
            );
        }
        let ghost before = views(seen@);
        seen.push(to_vec(e.extn_id.as_slice()));
        assert(views(seen@) =~= before.push(e@.extn_id));
        let processed: bool = process_extension(e)?;
        if e.critical && !processed {
            return Err(
                LtvError::Ocsp(
                    Fault::Text("OCSP responder certificate has an unprocessed critical extension"),
                ),
            );
        }
        i += 1;
    }
    Ok(())
}

fn has_ocsp_signing_purpose(cert: &Certificate) -> (r: bool)
    ensures
        r == ocsp_signing_purpose(cert@),
{
    let (_, first) = find_extensions(cert, ID_CE_EXT_KEY_USAGE.as_slice());
    match first {
        None => false,
        Some(e) => match decode_extended_key_usage(e.extn_value.as_slice()) {
            None => false,
            Some(purposes) => contains_bytes(&purposes, ID_KP_OCSP_SIGNING.as_slice()),
        },
    }
}

/// Checks the extensions of a delegated responder's certificate.
pub fn validate_delegated_responder_extensions(cert: &Certificate) -> (r: Result<(), LtvError>)
    ensures
        r == delegated_profile(cert@),
{
    match &cert.extensions {
        Some(list) => {
            check_extension_list(list)?;
        },
        None => {},
    }
    if has_ocsp_signing_purpose(cert) {
        Ok(())
    } else {
        Err(
            LtvError::Ocsp(
                Fault::Text(
                    "OCSP responder certificate profile: extendedKeyUsage lacks id-kp-OCSPSigning",
                ),
            ),
        )
    }
}

/// A certificate carries the nocheck extension with its only value, NULL.
pub open spec fn has_nocheck(cert: CertificateView) -> bool {
    exists|i: int|
        0 <= i < extension_list(cert).len() && (#[trigger] extension_list(cert)[i]).extn_id
            == ID_PKIX_OCSP_NOCHECK@ && extension_list(cert)[i].extn_value == DER_NULL@
}

/// Whether a certificate carries the nocheck extension.
pub fn has_ocsp_nocheck_extension(cert: &Certificate) -> (r: bool)
    ensures
        r == has_nocheck(cert@),
{
    let list = match &cert.extensions {
        None => return false,
        Some(l) => l,
    };
    let ghost all = extension_list(cert@);
    let mut i: usize = 0;
    while i < list.len()
        invariant
            i <= list.len(),
            all == extension_list(cert@),
            all == extension_views(list@),
            forall|j: int|
                0 <= j < i ==> !((#[trigger] all[j]).extn_id == ID_PKIX_OCSP_NOCHECK@
                    && all[j].extn_value == DER_NULL@),
        decreases list.len() - i,
    {
        assert(all[i as int] == list@[i as int]@);
        if bytes_equal(list[i].extn_id.as_slice(), ID_PKIX_OCSP_NOCHECK.as_slice()) && bytes_equal(
            list[i].extn_value.as_slice(),
            DER_NULL.as_slice(),
        ) {
            return true;
        }
        i += 1;
    }
    false
}

/// A responder may sign for an issuer at a time: its certificate is valid then and
/// is the one that the response names, and it is the issuer itself or a responder
/// that the issuer delegated to. `names` is the verdict on whether a delegated
/// responder meets the name constraints of the issuer.
pub open spec fn responder_trust(
    responder: CertificateView,
    issuer: CertificateView,
    id: ResponderIdView,
    legacy: bool,
    now: UtcTime,
    names: Result<(), TrustError>,
) -> Result<ResponderRevocationCheck, LtvError> {
    if now.instant() < responder.not_before * 1_000_000_000 {
        ocsp(Fault::Text("OCSP responder certificate is not yet valid"))
    } else if now.instant() > responder.not_after * 1_000_000_000 {
        ocsp(Fault::Text("OCSP responder certificate is expired"))
    } else {
        match responder_matches(responder, id) {
            Err(e) => Err(e),
            Ok(()) => if same_identity(responder, issuer) {
                Ok(ResponderRevocationCheck::NotRequired)
            } else {
                delegated_trust(responder, issuer, legacy, names)
            },
        }
    }
}

/// The issuer delegated to a responder: it issued the certificate, which has the
/// profile of a responder and meets the name constraints of the issuer.
pub open spec fn delegated_trust(
    responder: CertificateView,
    issuer: CertificateView,
    legacy: bool,
    names: Result<(), TrustError>,
) -> Result<ResponderRevocationCheck, LtvError> {
    if responder.issuer != issuer.subject {
        ocsp(Fault::Text("OCSP responder issuer name does not match the expected CA"))
    } else if certificate_signature(responder, issuer, legacy) is Err {
        ocsp(Fault::Text("OCSP responder certificate is not issued by the expected CA"))
    } else {
        match delegated_profile(responder) {
            Err(e) => Err(e),
            Ok(()) => match names {
                Err(e) => ocsp(Fault::Trust("delegated OCSP responder name constraints", e)),
                Ok(()) => Ok(
                    if has_nocheck(responder) {
                        ResponderRevocationCheck::NotRequired
                    } else {
                        ResponderRevocationCheck::Required
                    },
                ),
            },
        }
    }
}

/// Checks that a responder may sign for an issuer. `names` is the verdict on whether
/// the responder meets the issuer's name constraints; it counts only where the
/// responder is not the issuer itself.
pub fn validate_responder_trust(
    responder_cert: &Certificate,
    issuer: &Certificate,
    parsed: &ParsedBasicOcspResponse,
    policy: &SignaturePolicy,
    now: UtcTime,
    names: Result<(), TrustError>,
) -> (r: Result<ResponderRevocationCheck, LtvError>)
    ensures
        r == responder_trust(
            responder_cert@,
            issuer@,
            parsed@.responder_id,
            policy.legacy(),
            now,
            names,
        ),
{
    let at: i128 = now.as_nanos();
    if at < responder_cert.not_before as i128 * 1_000_000_000 {
        return Err(LtvError::Ocsp(Fault::Text("OCSP responder certificate is not yet valid")));
    }
    if at > responder_cert.not_after as i128 * 1_000_000_000 {
        return Err(LtvError::Ocsp(Fault::Text("OCSP responder certificate is expired")));
    }
    responder_matches_responder_id(responder_cert, &parsed.responder_id)?;
    if certs_have_same_identity(responder_cert, issuer) {
        return Ok(ResponderRevocationCheck::NotRequired);
    }
    if !bytes_equal(responder_cert.issuer.as_slice(), issuer.subject.as_slice()) {
        return Err(
            LtvError::Ocsp(
                Fault::Text("OCSP responder issuer name does not match the expected CA"),
            ),
        );
    }
    if verify_certificate_signature_with_policy(responder_cert, issuer, policy).is_err() {
        return Err(
            LtvError::Ocsp(
                Fault::Text("OCSP responder certificate is not issued by the expected CA"),
            ),
        );
    }
    validate_delegated_responder_extensions(responder_cert)?;
    match names {
        Err(e) => return Err(
            LtvError::Ocsp(Fault::Trust("delegated OCSP responder name constraints", e)),
        ),
        Ok(()) => {},
    }
    if has_ocsp_nocheck_extension(responder_cert) {
        Ok(ResponderRevocationCheck::NotRequired)
    } else {
        Ok(ResponderRevocationCheck::Required)
    }
}

/// The certificate that signed a response is the caller's issuer certificate
/// itself, or one with another name or key.
pub proof fn law_signer_is_issuer_or_other(
    candidates: Seq<CertificateView>,
    i: nat,
    parsed: BasicResponseView,
    issuer: CertificateView,
    legacy: bool,
)
    ensures
        response_signer(candidates, i, parsed, issuer, legacy) matches Ok(c) ==> c == issuer
            || !same_identity(c, issuer),
    decreases candidates.len() - i,
{
    if i < candidates.len() && !signed_by(parsed, candidates[i as int], legacy) {
        law_signer_is_issuer_or_other(candidates, i + 1, parsed, issuer, legacy);
    }
}

/// Only the issuer itself signs without a delegation: any other accepted responder
/// was issued by the issuer, may sign OCSP responses, and meets the issuer's name
/// constraints.
pub proof fn law_delegation(
    responder: CertificateView,
    issuer: CertificateView,
    id: ResponderIdView,
    legacy: bool,
    now: UtcTime,
    names: Result<(), TrustError>,
)
    requires
        responder_trust(responder, issuer, id, legacy, now, names) is Ok,
        !same_identity(responder, issuer),
    ensures
        responder.issuer == issuer.subject,
        certificate_signature(responder, issuer, legacy) is Ok,
        ocsp_signing_purpose(responder),
        names is Ok,
{
}

} // verus!
