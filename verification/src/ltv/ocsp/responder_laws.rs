//! Who may answer for a certificate, and what is asked.

use vstd::prelude::*;

#[allow(unused_imports)]
use crate::asn1::laws::{
    flag_element, law_extended_key_usage_read_back, law_extension_list, law_extension_read_back,
    law_extensions_in_order, law_key_usage_bits, lemma_elements, lemma_short, purposes_bytes,
};
#[allow(unused_imports)]
use crate::asn1::{
    basic_constraints_of, extended_key_usage_of, extensions_of, general_names_of, oid_valid,
    whole_arcs, ExtensionView,
};
#[allow(unused_imports)]
use crate::cert::laws::{has_single_extension, lacks_extension, law_single_extension};
#[allow(unused_imports)]
use crate::cert::{
    certificate_of, extension_list, CertificateView, ID_CE_BASIC_CONSTRAINTS, ID_CE_EXT_KEY_USAGE,
    ID_CE_KEY_USAGE, ID_CE_SUBJECT_ALT_NAME,
};
#[allow(unused_imports)]
use crate::crypto::algorithm::{hash_of, HashAlgorithm, OID_SHA1};
#[allow(unused_imports)]
use crate::crypto::laws::{backend_accepts, law_accepted_signature};
#[allow(unused_imports)]
use crate::crypto::verify::{certificate_signature, signature_by_algorithm};
#[allow(unused_imports)]
use crate::der_utils::{tlv, tlv_bytes, DerError};
#[allow(unused_imports)]
use crate::error::{LtvError, TrustError};
#[allow(unused_imports)]
use crate::ltv::ocsp::aia::{
    access_url, access_urls, aia_urls, certificate_urls, method_oid, AiaAccessMethod,
    ID_AD_CA_ISSUERS, ID_AD_OCSP, ID_PE_AUTHORITY_INFO_ACCESS,
};
#[allow(unused_imports)]
use crate::ltv::ocsp::fetch::{accepted_body, responder_urls};
#[allow(unused_imports)]
use crate::ltv::ocsp::laws::{law_response_read_back, lemma_written, ocsp_bytes};
#[allow(unused_imports)]
use crate::ltv::ocsp::request::{
    cert_id, nonce_extensions, request_bytes, request_bytes_with_nonce, request_list, sha1,
    OCSP_NONCE_OID,
};
#[allow(unused_imports)]
use crate::ltv::ocsp::responder::{
    decodable_certificates, delegated_profile, ocsp_signing_purpose, processed_extension,
    responder_extension_list, responder_key_usage, responder_matches, responder_trust,
    response_signer, signed_by, signer_candidates, verified_signer, ID_KP_OCSP_SIGNING,
    ID_PKIX_OCSP_NOCHECK,
};
#[allow(unused_imports)]
use crate::ltv::ocsp::response::{BasicResponseView, ResponderIdView};
#[allow(unused_imports)]
use crate::text::utf8_of;
#[allow(unused_imports)]
use crate::time::UtcTime;
#[allow(unused_imports)]
use crate::tsp::tst_info::DER_NULL;

verus! {

proof fn lemma_decodable(list: Seq<Seq<u8>>, i: nat, found: Seq<CertificateView>)
    requires
        i <= list.len(),
    ensures
        forall|c: CertificateView|
            #[trigger] decodable_certificates(list, i, found).contains(c) <==> found.contains(c)
                || exists|k: int|
                i <= k < list.len() && certificate_of(#[trigger] list[k]) == Some(c),
    decreases list.len() - i,
{
    let all = decodable_certificates(list, i, found);
    if i < list.len() {
        match certificate_of(list[i as int]) {
            None => {
                lemma_decodable(list, i + 1, found);
                assert(all == decodable_certificates(list, i + 1, found));
                assert forall|c: CertificateView| #[trigger] all.contains(c) <==> found.contains(c)
                    || exists|k: int|
                    i <= k < list.len() && certificate_of(#[trigger] list[k]) == Some(c) by {
                    if exists|k: int|
                        i <= k < list.len() && certificate_of(#[trigger] list[k]) == Some(c) {
                        let k = choose|k: int|
                            i <= k < list.len() && certificate_of(#[trigger] list[k]) == Some(c);
                        assert(k >= i + 1);
                    }
                }
            },
            Some(d) => {
                let more = found.push(d);
                lemma_decodable(list, i + 1, more);
                assert(all == decodable_certificates(list, i + 1, more));
                assert forall|c: CertificateView| #[trigger] all.contains(c) implies found.contains(
                    c,
                ) || exists|k: int|
                    i <= k < list.len() && certificate_of(#[trigger] list[k]) == Some(c) by {
                    if more.contains(c) {
                        let w = choose|w: int| 0 <= w < more.len() && more[w] == c;
                        if w < found.len() {
                            assert(found[w] == c);
                        } else {
                            assert(certificate_of(list[i as int]) == Some(c));
                        }
                    } else {
                        let k = choose|k: int|
                            i + 1 <= k < list.len() && certificate_of(#[trigger] list[k]) == Some(c);
                        assert(certificate_of(list[k]) == Some(c));
                    }
                }
                assert forall|c: CertificateView|
                    found.contains(c) || (exists|k: int|
                        i <= k < list.len() && certificate_of(#[trigger] list[k]) == Some(
                            c,
                        )) implies #[trigger] all.contains(c) by {
                    if found.contains(c) {
                        let w = choose|w: int| 0 <= w < found.len() && found[w] == c;
                        assert(more[w] == c);
                    } else {
                        assert(more[found.len() as int] == d);
                        let k = choose|k: int|
                            i <= k < list.len() && certificate_of(#[trigger] list[k]) == Some(c);
                        if k == i {
                            assert(more.contains(c));
                        } else {
                            assert(certificate_of(list[k]) == Some(c));
                        }
                    }
                }
            },
        }
    }
}

/// A response may be signed by the issuer or by a certificate that comes with it, and
/// by no other; the issuer is tried last.
pub proof fn law_signer_candidates(parsed: BasicResponseView, issuer: CertificateView)
    ensures
        forall|c: CertificateView|
            #[trigger] signer_candidates(parsed, issuer).contains(c) <==> c == issuer
                || exists|k: int|
                0 <= k < parsed.embedded_certs_der.len() && certificate_of(
                    #[trigger] parsed.embedded_certs_der[k],
                ) == Some(c),
        signer_candidates(parsed, issuer).len() >= 1,
        signer_candidates(parsed, issuer).last() == issuer,
{
    let none = Seq::<CertificateView>::empty();
    let embedded = decodable_certificates(parsed.embedded_certs_der, 0, none);
    let all = signer_candidates(parsed, issuer);
    lemma_decodable(parsed.embedded_certs_der, 0, none);
    assert forall|c: CertificateView| #[trigger] all.contains(c) <==> embedded.contains(c) || c
        == issuer by {
        if embedded.contains(c) {
            let w = choose|w: int| 0 <= w < embedded.len() && embedded[w] == c;
            assert(all[w] == c);
        }
        if c == issuer {
            assert(all[all.len() - 1] == c);
        }
        if all.contains(c) && c != issuer {
            let w = choose|w: int| 0 <= w < all.len() && all[w] == c;
            assert(embedded[w] == c);
        }
    }
}

/// The signer of a response is the first candidate whose key a backend found to have
/// signed the data of the response, byte for byte; where its subject and its key are
/// those of the issuer, it is the issuer.
pub proof fn law_signer_signed(
    candidates: Seq<CertificateView>,
    i: nat,
    parsed: BasicResponseView,
    issuer: CertificateView,
    legacy: bool,
)
    ensures
        response_signer(candidates, i, parsed, issuer, legacy) matches Ok(signer) ==> exists|k: int|
            {
                &&& i <= k < candidates.len()
                &&& backend_accepts(
                    parsed.tbs_response_data,
                    parsed.signature_bytes,
                    (#[trigger] candidates[k]).spki,
                )
                &&& signature_by_algorithm(
                    parsed.tbs_response_data,
                    parsed.signature_bytes,
                    candidates[k].spki,
                    parsed.signature_algorithm,
                    legacy,
                ) is Ok
                &&& signer == (if candidates[k].subject == issuer.subject && candidates[k].spki
                    == issuer.spki {
                    issuer
                } else {
                    candidates[k]
                })
            },
    decreases candidates.len() - i,
{
    if i < candidates.len() {
        law_accepted_signature(
            parsed.tbs_response_data,
            parsed.signature_bytes,
            candidates[i as int].spki,
            parsed.signature_algorithm,
            legacy,
        );
        if signed_by(parsed, candidates[i as int], legacy) {
            assert(i <= i as int && (i as int) < candidates.len());
        } else {
            law_signer_signed(candidates, i + 1, parsed, issuer, legacy);
        }
    }
}

/// A response that a candidate signed has a signer: the first candidate that did.
pub proof fn law_signer_is_owed(
    candidates: Seq<CertificateView>,
    i: nat,
    parsed: BasicResponseView,
    issuer: CertificateView,
    legacy: bool,
    at: int,
)
    requires
        i <= at < candidates.len(),
        signature_by_algorithm(
            parsed.tbs_response_data,
            parsed.signature_bytes,
            candidates[at].spki,
            parsed.signature_algorithm,
            legacy,
        ) is Ok,
        forall|k: int|
            i <= k < at ==> signature_by_algorithm(
                parsed.tbs_response_data,
                parsed.signature_bytes,
                (#[trigger] candidates[k]).spki,
                parsed.signature_algorithm,
                legacy,
            ) is Err,
    ensures
        response_signer(candidates, i, parsed, issuer, legacy) == Ok::<CertificateView, LtvError>(
            if candidates[at].subject == issuer.subject && candidates[at].spki == issuer.spki {
                issuer
            } else {
                candidates[at]
            },
        ),
    decreases candidates.len() - i,
{
    if i < at {
        assert(!signed_by(parsed, candidates[i as int], legacy));
        law_signer_is_owed(candidates, i + 1, parsed, issuer, legacy, at);
    }
}

/// The signer of a response is the issuer or a certificate that comes with the
/// response, and a backend found that its key signed the data of the response. Where no
/// certificate comes with it, the issuer must have signed it.
pub proof fn law_verified_signer(parsed: BasicResponseView, issuer: CertificateView, legacy: bool)
    ensures
        verified_signer(parsed, issuer, legacy) matches Ok(signer) ==> {
            &&& backend_accepts(
                parsed.tbs_response_data,
                parsed.signature_bytes,
                signer.spki,
            )
            &&& signer == issuer || exists|k: int|
                0 <= k < parsed.embedded_certs_der.len() && certificate_of(
                    #[trigger] parsed.embedded_certs_der[k],
                ) == Some(signer)
        },
        parsed.embedded_certs_der.len() == 0 ==> (verified_signer(parsed, issuer, legacy) == Ok::<
            CertificateView,
            LtvError,
        >(issuer) <==> signature_by_algorithm(
            parsed.tbs_response_data,
            parsed.signature_bytes,
            issuer.spki,
            parsed.signature_algorithm,
            legacy,
        ) is Ok),
{
    let candidates = signer_candidates(parsed, issuer);
    law_signer_candidates(parsed, issuer);
    law_signer_signed(candidates, 0, parsed, issuer, legacy);
    if let Ok(signer) = verified_signer(parsed, issuer, legacy) {
        let k = choose|k: int|
            {
                &&& 0 <= k < candidates.len()
                &&& backend_accepts(
                    parsed.tbs_response_data,
                    parsed.signature_bytes,
                    (#[trigger] candidates[k]).spki,
                )
                &&& signature_by_algorithm(
                    parsed.tbs_response_data,
                    parsed.signature_bytes,
                    candidates[k].spki,
                    parsed.signature_algorithm,
                    legacy,
                ) is Ok
                &&& signer == (if candidates[k].subject == issuer.subject && candidates[k].spki
                    == issuer.spki {
                    issuer
                } else {
                    candidates[k]
                })
            };
        assert(candidates.contains(candidates[k]));
    }
    if parsed.embedded_certs_der.len() == 0 {
        assert(candidates =~= seq![issuer]);
        assert(candidates[0] == issuer);
        if signed_by(parsed, issuer, legacy) {
            law_signer_is_owed(candidates, 0, parsed, issuer, legacy, 0);
        }
    }
}

/// A responder is the one that a response names exactly where its subject is the name,
/// or the SHA-1 hash of its key is the hash.
pub proof fn law_responder_is_named(cert: CertificateView, name: Seq<u8>, hash: Seq<u8>)
    ensures
        responder_matches(cert, ResponderIdView::ByName(name)) is Ok <==> cert.subject == name,
        responder_matches(cert, ResponderIdView::ByKeyHash(hash)) is Ok <==> hash_of(
            HashAlgorithm::Sha1,
            cert.public_key,
        ) == Some(hash),
{
}

/// SHA-1 hashes are those of the backend.
pub proof fn law_sha1(data: Seq<u8>)
    ensures
        sha1(data) is Ok <==> hash_of(HashAlgorithm::Sha1, data) is Some,
        sha1(data) matches Ok(h) ==> hash_of(HashAlgorithm::Sha1, data) == Some(h),
{
}

/// A key usage permits a responder to sign exactly where one of its first two bits is
/// set, those of digital signature and non-repudiation.
pub proof fn law_responder_key_usage(octet: u8)
    ensures
        responder_key_usage(tlv_bytes(0x03, seq![0u8, octet])) is Ok <==> octet / 0x40 % 4 != 0,
{
    lemma_elements();
    lemma_short();
    law_key_usage_bits(octet);
    assert(seq![0u8, octet].skip(1) =~= seq![octet]);
}

proof fn lemma_distinct_extensions()
    ensures
        ID_CE_KEY_USAGE@[2] == 0x0F && ID_CE_SUBJECT_ALT_NAME@[2] == 0x11
            && ID_CE_BASIC_CONSTRAINTS@[2] == 0x13 && ID_CE_EXT_KEY_USAGE@[2] == 0x25,
        ID_PKIX_OCSP_NOCHECK@.len() == 9,
        ID_CE_KEY_USAGE@.len() == 3,
{
}

/// What an extension of a responder must hold: a key usage that permits signing, and
/// of the other kinds that are known a readable value; of a kind that is not known
/// nothing.
pub proof fn law_processed_extensions(e: ExtensionView)
    ensures
        e.extn_id == ID_CE_KEY_USAGE@ ==> (processed_extension(e) is Ok <==> responder_key_usage(
            e.extn_value,
        ) is Ok),
        e.extn_id == ID_CE_BASIC_CONSTRAINTS@ ==> (processed_extension(e) is Ok
            <==> basic_constraints_of(e.extn_value) is Some),
        e.extn_id == ID_CE_EXT_KEY_USAGE@ ==> (processed_extension(e) is Ok
            <==> extended_key_usage_of(e.extn_value) is Some),
        e.extn_id == ID_CE_SUBJECT_ALT_NAME@ ==> (processed_extension(e) is Ok
            <==> general_names_of(e.extn_value) is Some),
        e.extn_id == ID_PKIX_OCSP_NOCHECK@ ==> (processed_extension(e) is Ok <==> e.extn_value
            == seq![0x05u8, 0x00u8]),
        processed_extension(e) == Ok::<bool, LtvError>(false) <==> e.extn_id != ID_CE_KEY_USAGE@
            && e.extn_id != ID_CE_BASIC_CONSTRAINTS@ && e.extn_id != ID_CE_EXT_KEY_USAGE@
            && e.extn_id != ID_CE_SUBJECT_ALT_NAME@ && e.extn_id != ID_PKIX_OCSP_NOCHECK@,
{
    lemma_distinct_extensions();
    assert(DER_NULL@ =~= seq![0x05u8, 0x00u8]);
}

/// The extensions of a responder are accepted exactly where no identifier comes twice,
/// each known one holds what it must, and no other is critical.
pub proof fn law_responder_extensions(list: Seq<ExtensionView>, i: nat, seen: Seq<Seq<u8>>)
    requires
        i <= list.len(),
    ensures
        responder_extension_list(list, i, seen) is Ok <==> {
            &&& forall|k: int|
                i <= k < list.len() ==> !seen.contains((#[trigger] list[k]).extn_id)
                    && processed_extension(list[k]) is Ok && (list[k].critical
                    ==> processed_extension(list[k]) == Ok::<bool, LtvError>(true))
            &&& forall|j: int, k: int|
                i <= j < k < list.len() ==> (#[trigger] list[j]).extn_id != (
                #[trigger] list[k]).extn_id
        },
    decreases list.len() - i,
{
    if i < list.len() {
        let e = list[i as int];
        let more = seen.push(e.extn_id);
        law_responder_extensions(list, i + 1, more);
        assert forall|x: Seq<u8>| #[trigger] more.contains(x) <==> seen.contains(x) || x
            == e.extn_id by {
            if seen.contains(x) {
                let w = choose|w: int| 0 <= w < seen.len() && seen[w] == x;
                assert(more[w] == x);
            }
            if x == e.extn_id {
                assert(more[seen.len() as int] == x);
            }
            if more.contains(x) && x != e.extn_id {
                let w = choose|w: int| 0 <= w < more.len() && more[w] == x;
                assert(seen[w] == x);
            }
        }
        if responder_extension_list(list, i, seen) is Ok {
            assert forall|k: int| i <= k < list.len() implies !seen.contains(
                (#[trigger] list[k]).extn_id,
            ) && processed_extension(list[k]) is Ok && (list[k].critical ==> processed_extension(
                list[k],
            ) == Ok::<bool, LtvError>(true)) by {
                if k > i {
                    assert(!more.contains(list[k].extn_id));
                }
            }
            assert forall|j: int, k: int| i <= j < k < list.len() implies (
            #[trigger] list[j]).extn_id != (#[trigger] list[k]).extn_id by {
                assert(!more.contains(list[k].extn_id));
            }
        } else {
            if (forall|k: int|
                i <= k < list.len() ==> !seen.contains((#[trigger] list[k]).extn_id)
                    && processed_extension(list[k]) is Ok && (list[k].critical
                    ==> processed_extension(list[k]) == Ok::<bool, LtvError>(true))) && (forall|
                j: int,
                k: int,
            |
                i <= j < k < list.len() ==> (#[trigger] list[j]).extn_id != (
                #[trigger] list[k]).extn_id) {
                assert(!seen.contains(list[i as int].extn_id));
                assert forall|k: int| i + 1 <= k < list.len() implies !more.contains(
                    (#[trigger] list[k]).extn_id,
                ) && processed_extension(list[k]) is Ok && (list[k].critical
                    ==> processed_extension(list[k]) == Ok::<bool, LtvError>(true)) by {
                    assert(list[i as int].extn_id != list[k].extn_id);
                }
            }
        }
    }
}

/// A responder other than the issuer must be made for signing answers: its extended
/// key usage names that purpose.
pub proof fn law_responder_purpose(
    cert: CertificateView,
    critical: bool,
    purposes: Seq<Seq<u8>>,
)
    requires
        forall|i: int| 0 <= i < purposes.len() ==> oid_valid(#[trigger] purposes[i]),
        purposes_bytes(purposes).len() <= 0x100_0000,
    ensures
        has_single_extension(
            cert,
            ID_CE_EXT_KEY_USAGE@,
            critical,
            tlv_bytes(0x30, purposes_bytes(purposes)),
        ) ==> (ocsp_signing_purpose(cert) <==> purposes.contains(ID_KP_OCSP_SIGNING@)),
        lacks_extension(cert, ID_CE_EXT_KEY_USAGE@) ==> !ocsp_signing_purpose(cert),
        delegated_profile(cert) is Ok <==> responder_extension_list(
            extension_list(cert),
            0,
            Seq::empty(),
        ) is Ok && ocsp_signing_purpose(cert),
{
    law_extended_key_usage_read_back(purposes);
    law_single_extension(
        cert,
        ID_CE_EXT_KEY_USAGE@,
        critical,
        tlv_bytes(0x30, purposes_bytes(purposes)),
    );
}

/// A responder is trusted exactly where it is valid at the time, is the one that the
/// response names, and is the issuer, or was issued by it for this purpose within its
/// name constraints. Its own revocation must be checked exactly where it is not the
/// issuer and does not say that it need not be.
pub proof fn law_responder_is_trusted(
    responder: CertificateView,
    issuer: CertificateView,
    id: ResponderIdView,
    legacy: bool,
    now: UtcTime,
    names: Result<(), TrustError>,
)
    ensures
        responder_trust(responder, issuer, id, legacy, now, names) is Ok <==> {
            &&& responder.not_before * 1_000_000_000 <= now.instant()
            &&& now.instant() <= responder.not_after * 1_000_000_000
            &&& responder_matches(responder, id) is Ok
            &&& responder.subject == issuer.subject && responder.spki == issuer.spki || {
                &&& responder.issuer == issuer.subject
                &&& certificate_signature(responder, issuer, legacy) is Ok
                &&& delegated_profile(responder) is Ok
                &&& names is Ok
            }
        },
        responder_trust(responder, issuer, id, legacy, now, names) matches Ok(check) ==> (check
            is Required <==> !(responder.subject == issuer.subject && responder.spki
            == issuer.spki) && forall|i: int|
            0 <= i < extension_list(responder).len() && (#[trigger] extension_list(
                responder,
            )[i]).extn_id == ID_PKIX_OCSP_NOCHECK@ ==> extension_list(responder)[i].extn_value
                != seq![0x05u8, 0x00u8]),
{
    assert(DER_NULL@ =~= seq![0x05u8, 0x00u8]);
}

/// A request asks about one certificate: it holds the identifier and, without a nonce,
/// nothing more.
pub proof fn law_request_read_back(id: Seq<u8>)
    requires
        id.len() <= 0x1000_0000,
    ensures
        tlv(request_bytes(id)) matches Ok((a, request, after)) && a == 0x30 && after.len() == 0 && (
        tlv(request) matches Ok((b, tbs, more)) && b == 0x30 && more.len() == 0 && (tlv(
            tbs,
        ) matches Ok((c, list, rest)) && c == 0x30 && rest.len() == 0 && (tlv(list) matches Ok((
            d,
            single,
            others,
        )) && d == 0x30 && others.len() == 0 && single == id))),
{
    lemma_elements();
    lemma_short();
}

/// A request with a nonce holds the identifier and, behind it, the one extension that
/// carries the nonce in an OCTET STRING.
pub proof fn law_request_with_nonce_read_back(id: Seq<u8>, nonce: Seq<u8>)
    requires
        id.len() <= 0x1000_0000,
        nonce.len() <= 0x1000,
    ensures
        tlv(request_bytes_with_nonce(id, nonce)) matches Ok((a, request, after)) && a == 0x30
            && after.len() == 0 && (tlv(request) matches Ok((b, tbs, more)) && b == 0x30
            && more.len() == 0 && (tlv(tbs) matches Ok((c, list, rest)) && c == 0x30 && (tlv(
            list,
        ) matches Ok((d, single, others)) && d == 0x30 && others.len() == 0 && single == id) && (
        tlv(rest) matches Ok((e, extensions, end)) && e == 0xA2 && end.len() == 0
            && extensions_of(extensions) == Some(
            seq![
                ExtensionView {
                    extn_id: OCSP_NONCE_OID@,
                    critical: false,
                    extn_value: tlv_bytes(0x04, nonce),
                },
            ],
        )))),
{
    lemma_nonce_extension(nonce);
    lemma_request_levels(id, nonce_extensions(nonce));
}

proof fn lemma_request_levels(id: Seq<u8>, extensions: Seq<u8>)
    requires
        id.len() <= 0x1000_0000,
        extensions.len() <= 0x3000,
    ensures
        ({
            let tbs = request_list(id) + extensions;
            let request = tlv_bytes(0x30, tbs);
            &&& tlv(tlv_bytes(0x30, request)) == Ok::<(u8, Seq<u8>, Seq<u8>), DerError>(
                (0x30, request, Seq::<u8>::empty()),
            )
            &&& tlv(request) == Ok::<(u8, Seq<u8>, Seq<u8>), DerError>(
                (0x30, tbs, Seq::<u8>::empty()),
            )
            &&& tlv(tbs) == Ok::<(u8, Seq<u8>, Seq<u8>), DerError>(
                (0x30, tlv_bytes(0x30, id), extensions),
            )
            &&& tlv(tlv_bytes(0x30, id)) == Ok::<(u8, Seq<u8>, Seq<u8>), DerError>(
                (0x30, id, Seq::<u8>::empty()),
            )
        }),
{
    lemma_elements();
    lemma_short();
}

proof fn lemma_nonce_extension(nonce: Seq<u8>)
    requires
        nonce.len() <= 0x1000,
    ensures
        tlv(nonce_extensions(nonce)) matches Ok((e, extensions, end)) && e == 0xA2 && end.len()
            == 0 && extensions_of(extensions) == Some(
            seq![
                ExtensionView {
                    extn_id: OCSP_NONCE_OID@,
                    critical: false,
                    extn_value: tlv_bytes(0x04, nonce),
                },
            ],
        ),
        nonce_extensions(nonce).len() <= 0x3000,
{
    let value = tlv_bytes(0x04, nonce);
    let body = tlv_bytes(0x06, OCSP_NONCE_OID@) + tlv_bytes(0x04, value);
    let first = tlv_bytes(0x30, body);
    let none = Seq::<u8>::empty();
    let area = tlv_bytes(0x30, first);
    lemma_short();
    assert(OCSP_NONCE_OID@.len() == 9);
    assert(body.len() <= 0x1100);
    assert(oid_valid(OCSP_NONCE_OID@)) by {
        reveal(oid_valid);
        reveal_with_fuel(whole_arcs, 10);
    }
    law_extension_read_back(OCSP_NONCE_OID@, false, value);
    assert(flag_element(false) + tlv_bytes(0x04, value) =~= tlv_bytes(0x04, value));
    let e = ExtensionView { extn_id: OCSP_NONCE_OID@, critical: false, extn_value: value };
    let list = Seq::<ExtensionView>::empty().push(e);
    law_extensions_in_order(body, none, Seq::empty());
    law_extensions_in_order(body, none, list);
    assert(first + none =~= first);
    law_extension_list(first);
    assert(list =~= seq![e]);
    assert(nonce_extensions(nonce) == tlv_bytes(0xA2, area));
    lemma_elements();
}

/// What is asked about is the certificate: by the SHA-1 hashes of its issuer's name and
/// key, and by its serial number as its certificate writes it.
pub proof fn law_certificate_is_asked_about(cert: CertificateView, issuer: CertificateView)
    ensures
        cert_id(cert, issuer) is Ok <==> hash_of(HashAlgorithm::Sha1, issuer.subject) is Some
            && hash_of(HashAlgorithm::Sha1, issuer.public_key) is Some,
        cert_id(cert, issuer) matches Ok(id) ==> id == tlv_bytes(
            0x30,
            tlv_bytes(0x30, tlv_bytes(0x06, OID_SHA1@) + seq![0x05u8, 0x00u8]) + tlv_bytes(
                0x04,
                hash_of(HashAlgorithm::Sha1, issuer.subject)->0,
            ) + tlv_bytes(0x04, hash_of(HashAlgorithm::Sha1, issuer.public_key)->0)
                + cert.serial_der,
        ),
{
    assert(DER_NULL@ =~= seq![0x05u8, 0x00u8]);
}

/// A place of access counts for a method exactly where it names that method and is a
/// URL.
pub proof fn law_access_url_read_back(oid: Seq<u8>, tag: u8, url: Seq<u8>, method: Seq<u8>)
    requires
        oid.len() <= 0x1000,
        url.len() <= 0x10_0000,
    ensures
        access_url(tlv_bytes(0x06, oid) + tlv_bytes(tag, url), method) == Ok::<
            Option<Seq<char>>,
            LtvError,
        >(
            if oid == method && tag == 0x86 {
                utf8_of(url)
            } else {
                None
            },
        ),
{
    lemma_written();
}

/// Places of access are read one after the other: the first, and then the rest.
pub proof fn law_access_urls_in_order(
    first: Seq<u8>,
    rest: Seq<u8>,
    method: Seq<u8>,
    found: Seq<Seq<char>>,
)
    requires
        first.len() <= u32::MAX,
    ensures
        access_urls(tlv_bytes(0x30, first) + rest, method, found) == (match access_url(
            first,
            method,
        ) {
            Err(e) => Err(e),
            Ok(None) => access_urls(rest, method, found),
            Ok(Some(url)) => access_urls(rest, method, found.push(url)),
        }),
        access_urls(Seq::empty(), method, found) == Ok::<Seq<Seq<char>>, LtvError>(found),
        aia_urls(tlv_bytes(0x30, first), method) == access_urls(first, method, Seq::empty()),
{
    lemma_written();
}

/// The URLs of a certificate are those of its authority information access extensions,
/// in their order; one that cannot be read adds none.
pub proof fn law_certificate_urls(
    list: Seq<ExtensionView>,
    method: Seq<u8>,
    i: nat,
    found: Seq<Seq<char>>,
)
    requires
        i < list.len(),
    ensures
        certificate_urls(list, method, i, found) == certificate_urls(
            list,
            method,
            i + 1,
            if list[i as int].extn_id == ID_PE_AUTHORITY_INFO_ACCESS@ && aia_urls(
                list[i as int].extn_value,
                method,
            ) is Ok {
                found + aia_urls(list[i as int].extn_value, method)->Ok_0
            } else {
                found
            },
        ),
        certificate_urls(list, method, list.len(), found) == found,
        method_oid(AiaAccessMethod::Ocsp) == ID_AD_OCSP@,
        method_oid(AiaAccessMethod::CaIssuers) == ID_AD_CA_ISSUERS@,
{
}

/// The responders of a certificate are at the URLs that its authority information
/// access gives for the status protocol, and at no others.
pub proof fn law_responder_urls(
    cert: CertificateView,
    critical: bool,
    method: Seq<u8>,
    url: Seq<u8>,
    text: Seq<char>,
)
    requires
        method.len() <= 0x1000,
        url.len() <= 0x10_0000,
        utf8_of(url) == Some(text),
        cert.extensions == Some(
            seq![
                ExtensionView {
                    extn_id: ID_PE_AUTHORITY_INFO_ACCESS@,
                    critical,
                    extn_value: tlv_bytes(
                        0x30,
                        tlv_bytes(0x30, tlv_bytes(0x06, method) + tlv_bytes(0x86, url)),
                    ),
                },
            ],
        ),
    ensures
        responder_urls(cert) == (if method == ID_AD_OCSP@ {
            seq![text]
        } else {
            Seq::empty()
        }),
{
    let none = Seq::<Seq<char>>::empty();
    let first = tlv_bytes(0x06, method) + tlv_bytes(0x86, url);
    let list = extension_list(cert);
    let rest = Seq::<u8>::empty();
    let oid = ID_AD_OCSP@;
    lemma_short();
    law_access_url_read_back(method, 0x86, url, oid);
    law_access_urls_in_order(first, rest, oid, none);
    law_access_urls_in_order(first, rest, oid, none.push(text));
    assert(tlv_bytes(0x30, first) + rest =~= tlv_bytes(0x30, first));
    law_access_urls_in_order(tlv_bytes(0x30, first), rest, oid, none);
    let urls = aia_urls(list[0].extn_value, oid)->Ok_0;
    law_certificate_urls(list, oid, 0, none);
    law_certificate_urls(list, oid, 0, none + urls);
    assert(certificate_urls(list, oid, 1, none + urls) == none + urls);
    assert(none + urls =~= urls);
    assert(none.push(text) =~= seq![text]);
}

/// A body is accepted exactly where it is a response whose status says that it
/// succeeded.
pub proof fn law_body_is_accepted(status: u8, response_type: Seq<u8>, basic: Seq<u8>)
    requires
        response_type.len() <= 0x1000,
        basic.len() <= 0x2000_0000,
    ensures
        accepted_body(ocsp_bytes(status, response_type, basic)) is Ok <==> status == 0,
        accepted_body(Seq::empty()) is Err,
{
    law_response_read_back(status, response_type, basic);
    lemma_written();
}

} // verus!
