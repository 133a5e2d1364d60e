//! Deciding the revocation status of a certificate from an OCSP response.

use vstd::prelude::*;

use crate::bytes::bytes_equal;
use crate::cert::{certs_have_same_identity, duplicate_all, Certificate};
use crate::crypto::algorithm::OID_SHA1;
use crate::crypto::verify::SignaturePolicy;
use crate::der_utils::{
    encode_tlv, integer_bodies_equal, parse_integer_body, parse_tlv_with_rest,
};
use crate::error::{Fault, LtvError, TrustError};
use crate::ltv::ocsp::request::sha1_hash;
use crate::ltv::ocsp::responder::{
    validate_responder_trust, verify_ocsp_response_signature, ResponderRevocationCheck,
};
use crate::ltv::ocsp::response::{
    parse_ocsp_response, CertStatus, ParsedBasicOcspResponse, SingleResponse,
};
use crate::ltv::status::{CertRole, RevocationSource, ValidationStatus};
use crate::time::{CivilTime, TimeSpan, UtcTime};
use crate::trust::{PathQuery, TrustQuery, TrustStore};
#[allow(unused_imports)]
use crate::agrees;
#[allow(unused_imports)]
use crate::bytes::{lemma_zeros_stripped_once, without_leading_zeros};
#[allow(unused_imports)]
use crate::cert::{certificate_views, same_identity, serial_is_integer, CertificateView};
#[allow(unused_imports)]
use crate::der_utils::{law_tlv_round_trip, tlv, tlv_bytes};
#[allow(unused_imports)]
use crate::ltv::ocsp::request::{cert_id, sha1, sha1_identifier};
#[allow(unused_imports)]
use crate::ltv::ocsp::responder::{responder_trust, verified_signer};
#[allow(unused_imports)]
use crate::ltv::ocsp::response::{
    cert_id_fields, nonce_value, ocsp, ocsp_field, ocsp_response, single_response, single_views,
    BasicResponseView, SingleResponseView,
};
#[allow(unused_imports)]
use crate::opt_view;
#[allow(unused_imports)]
use crate::trust::{PathQueryView, TrustQueryView};
#[allow(unused_imports)]
use crate::tsp::tst_info::DER_NULL;

verus! {

/// A response nonce echoes a request nonce: as it is, or as the contents of
/// exactly one OCTET STRING.
pub open spec fn nonce_echoed(request: Seq<u8>, response: Seq<u8>) -> bool {
    ||| response == request
    ||| response == tlv_bytes(0x04, request)
    ||| (tlv(response) matches Ok((tag, body, rest)) && tag == 0x04 && rest.len() == 0 && body
        == request)
}

/// Checks that a response echoes the nonce of the request.
pub fn validate_nonce(request_nonce: &[u8], response_nonce: &[u8]) -> (r: Result<(), LtvError>)
    ensures
        r == (if nonce_echoed(request_nonce@, response_nonce@) {
            Ok(())
        } else {
            ocsp(Fault::Text("OCSP response nonce mismatch"))
        }),
{
    if bytes_equal(response_nonce, request_nonce) {
        return Ok(());
    }
    let wrapped: Vec<u8> = encode_tlv(0x04, request_nonce);
    if bytes_equal(response_nonce, wrapped.as_slice()) {
        return Ok(());
    }
    match parse_tlv_with_rest(response_nonce) {
        Ok((tag, inner, rest)) => {
            if tag == 0x04 && rest.len() == 0 && bytes_equal(inner, request_nonce) {
                return Ok(());
            }
        },
        Err(_) => {},
    }
    Err(LtvError::Ocsp(Fault::Text("OCSP response nonce mismatch")))
}

/// A nonce is echoed raw and in an OCTET STRING; an OCTET STRING with anything
/// after it echoes no nonce but itself.
pub proof fn law_nonce_forms(request: Seq<u8>, after: Seq<u8>)
    requires
        request.len() <= u32::MAX,
        after.len() > 0,
    ensures
        nonce_echoed(request, request),
        nonce_echoed(request, tlv_bytes(0x04, request)),
        !nonce_echoed(request, tlv_bytes(0x04, request) + after),
{
    let longer = tlv_bytes(0x04, request) + after;
    law_tlv_round_trip(0x04, request, after);
    assert(longer.len() > tlv_bytes(0x04, request).len());
    assert(tlv_bytes(0x04, request).len() > request.len());
}

/// A responder that echoes the value of the request's nonce extension is accepted.
/// So is one that echoes the nonce without its OCTET STRING, unless the nonce is
/// itself an OCTET STRING.
pub proof fn law_echoed_extension_is_accepted(sent: Seq<u8>)
    requires
        sent.len() <= u32::MAX,
    ensures
        nonce_echoed(sent, nonce_value(tlv_bytes(0x04, sent))),
        !(tlv(sent) matches Ok((tag, body, rest)) && tag == 0x04 && rest.len() == 0)
            ==> nonce_echoed(sent, nonce_value(sent)),
{
    let none = Seq::<u8>::empty();
    law_tlv_round_trip(0x04, sent, none);
    assert(tlv_bytes(0x04, sent) + none =~= tlv_bytes(0x04, sent));
}

/// How fresh a response must be.
#[derive(Debug, Clone, Copy)]
pub struct OcspFreshness {
    /// The tolerated difference of clocks.
    pub clock_skew: TimeSpan,
    /// The greatest age of a response that names no next update.
    pub max_age_without_next_update: TimeSpan,
}

impl Default for OcspFreshness {
    fn default() -> (r: OcspFreshness)
        ensures
            r.clock_skew == (TimeSpan { seconds: 300, nanos: 0 }),
            r.max_age_without_next_update == (TimeSpan { seconds: 86_400, nanos: 0 }),
            r == default_freshness(),
    {
        OcspFreshness {
            clock_skew: TimeSpan::from_seconds(300),
            max_age_without_next_update: TimeSpan::from_seconds(86_400),
        }
    }
}

/// An answer is fresh at a time: not after its next update, or without one not
/// older than the greatest age, give or take the clock skew.
pub open spec fn response_freshness(
    this_update: UtcTime,
    next_update: Option<UtcTime>,
    now: UtcTime,
    freshness: OcspFreshness,
) -> Result<(), LtvError> {
    match next_update {
        Some(next) => if next.instant() < this_update.instant() {
            ocsp(Fault::Text("OCSP response has nextUpdate before thisUpdate"))
        } else if now.instant() > next.instant() + freshness.clock_skew.length() {
            ocsp(Fault::Text("OCSP response is stale: nextUpdate is before validation time"))
        } else {
            Ok(())
        },
        None => if now.instant() > this_update.instant()
            + freshness.max_age_without_next_update.length() + freshness.clock_skew.length() {
            ocsp(Fault::Text("OCSP response without nextUpdate is too old"))
        } else {
            Ok(())
        },
    }
}

/// Checks that an answer is fresh.
pub fn validate_response_freshness(
    sr: &SingleResponse,
    now: UtcTime,
    freshness: &OcspFreshness,
) -> (r: Result<(), LtvError>)
    ensures
        r == response_freshness(sr.this_update, sr.next_update, now, *freshness),
{
    let at: i128 = now.as_nanos();
    let skew: i128 = freshness.clock_skew.as_nanos();
    match sr.next_update {
        Some(next) => {
            if next.as_nanos() < sr.this_update.as_nanos() {
                return Err(
                    LtvError::Ocsp(Fault::Text("OCSP response has nextUpdate before thisUpdate")),
                );
            }
            if at > next.as_nanos() + skew {
                return Err(
                    LtvError::Ocsp(
                        Fault::Text(
                            "OCSP response is stale: nextUpdate is before validation time",
                        ),
                    ),
                );
            }
            Ok(())
        },
        None => {
            let age: i128 = freshness.max_age_without_next_update.as_nanos();
            if at > sr.this_update.as_nanos() + age + skew {
                return Err(
                    LtvError::Ocsp(Fault::Text("OCSP response without nextUpdate is too old")),
                );
            }
            Ok(())
        },
    }
}

/// Evidence that was collected after the time in question is fresh for it: an
/// answer whose times are in order is fresh at every time up to thisUpdate.
pub proof fn law_later_evidence_is_fresh(
    this_update: UtcTime,
    next_update: Option<UtcTime>,
    now: UtcTime,
    freshness: OcspFreshness,
)
    requires
        now.instant() <= this_update.instant(),
        next_update matches Some(next) ==> this_update.instant() <= next.instant(),
        freshness.clock_skew.length() >= 0,
        freshness.max_age_without_next_update.length() >= 0,
    ensures
        response_freshness(this_update, next_update, now, freshness) is Ok,
{
}

/// An answer that is fresh is fresh at every earlier time, and with a greater
/// clock skew.
pub proof fn law_freshness_is_monotone(
    this_update: UtcTime,
    next_update: Option<UtcTime>,
    now: UtcTime,
    earlier: UtcTime,
    freshness: OcspFreshness,
    looser: OcspFreshness,
)
    requires
        response_freshness(this_update, next_update, now, freshness) is Ok,
        earlier.instant() <= now.instant(),
        freshness.clock_skew.length() <= looser.clock_skew.length(),
        freshness.max_age_without_next_update.length()
            <= looser.max_age_without_next_update.length(),
    ensures
        response_freshness(this_update, next_update, earlier, looser) is Ok,
{
}

/// An answer is about the certificate with the given issuer hashes and serial
/// number.
pub open spec fn is_about(
    r: SingleResponseView,
    name_hash: Seq<u8>,
    key_hash: Seq<u8>,
    serial: Seq<u8>,
) -> bool {
    r.issuer_name_hash == name_hash && r.issuer_key_hash == key_hash && without_leading_zeros(
        r.serial_number,
    ) == without_leading_zeros(serial)
}

/// The first answer from index `i` on about a certificate; it must declare SHA-1.
pub open spec fn matching_response(
    list: Seq<SingleResponseView>,
    i: nat,
    name_hash: Seq<u8>,
    key_hash: Seq<u8>,
    serial: Seq<u8>,
) -> Result<Option<SingleResponseView>, LtvError>
    decreases list.len() - i,
{
    if i >= list.len() {
        Ok(None)
    } else if !is_about(list[i as int], name_hash, key_hash, serial) {
        matching_response(list, i + 1, name_hash, key_hash, serial)
    } else if list[i as int].hash_algorithm_oid != OID_SHA1@ {
        ocsp(
            Fault::Text(
                "matching OCSP CertID declares an unsupported hash algorithm (expected SHA-1)",
            ),
        )
    } else {
        Ok(Some(list[i as int]))
    }
}

/// Finds the first answer about a certificate.
pub fn find_matching_response<'a>(
    responses: &'a [SingleResponse],
    issuer_name_hash: &[u8],
    issuer_key_hash: &[u8],
    serial_number: &[u8],
) -> (r: Result<Option<&'a SingleResponse>, LtvError>)
    ensures
        match (
            r,
            matching_response(
                single_views(responses@),
                0,
                issuer_name_hash@,
                issuer_key_hash@,
                serial_number@,
            ),
        ) {
            (Ok(a), Ok(b)) => opt_view(a) == b,
            (Err(e), Err(f)) => e == f,
            _ => false,
        },
{
    let ghost all = single_views(responses@);
    let mut i: usize = 0;
    while i < responses.len()
        invariant
            i <= responses.len(),
            all == single_views(responses@),
            matching_response(
                all,
                i as nat,
                issuer_name_hash@,
                issuer_key_hash@,
                serial_number@,
            ) == matching_response(
                all,
                0,
                issuer_name_hash@,
                issuer_key_hash@,
                serial_number@,
            ),
        decreases responses.len() - i,
    {
        let response = &responses[i];
        assert(all[i as int] == response@);
        if bytes_equal(response.issuer_name_hash.as_slice(), issuer_name_hash) && bytes_equal(
            response.issuer_key_hash.as_slice(),
            issuer_key_hash,
        ) && integer_bodies_equal(response.serial_number.as_slice(), serial_number) {
            if !bytes_equal(response.hash_algorithm_oid.as_slice(), OID_SHA1.as_slice()) {
                return Err(
                    LtvError::Ocsp(
                        Fault::Text(
                            "matching OCSP CertID declares an unsupported hash algorithm (expected SHA-1)",
                        ),
                    ),
                );
            }
            return Ok(Some(response));
        }
        i += 1;
    }
    Ok(None)
}

/// What is found about a certificate is an answer about it that declares SHA-1.
pub proof fn law_matching_response(
    list: Seq<SingleResponseView>,
    i: nat,
    name_hash: Seq<u8>,
    key_hash: Seq<u8>,
    serial: Seq<u8>,
)
    ensures
        matching_response(list, i, name_hash, key_hash, serial) matches Ok(Some(r)) ==> is_about(
            r,
            name_hash,
            key_hash,
            serial,
        ) && r.hash_algorithm_oid == OID_SHA1@ && list.contains(r),
        matching_response(list, i, name_hash, key_hash, serial) matches Ok(None) ==> forall|j: int|
            i <= j < list.len() ==> !is_about(#[trigger] list[j], name_hash, key_hash, serial),
    decreases list.len() - i,
{
    if i < list.len() && !is_about(list[i as int], name_hash, key_hash, serial) {
        law_matching_response(list, i + 1, name_hash, key_hash, serial);
    }
}

/// Answers about other certificates do not matter: they may declare any hash.
pub proof fn law_unrelated_answers_do_not_matter(
    other: SingleResponseView,
    list: Seq<SingleResponseView>,
    name_hash: Seq<u8>,
    key_hash: Seq<u8>,
    serial: Seq<u8>,
)
    requires
        !is_about(other, name_hash, key_hash, serial),
    ensures
        matching_response(seq![other] + list, 0, name_hash, key_hash, serial) == matching_response(
            list,
            0,
            name_hash,
            key_hash,
            serial,
        ),
{
    lemma_shifted_match(other, list, 0, name_hash, key_hash, serial);
}

proof fn lemma_shifted_match(
    other: SingleResponseView,
    list: Seq<SingleResponseView>,
    i: nat,
    name_hash: Seq<u8>,
    key_hash: Seq<u8>,
    serial: Seq<u8>,
)
    ensures
        matching_response(seq![other] + list, i + 1, name_hash, key_hash, serial)
            == matching_response(list, i, name_hash, key_hash, serial),
    decreases list.len() - i,
{
    if i < list.len() {
        assert((seq![other] + list)[i as int + 1] == list[i as int]);
        lemma_shifted_match(other, list, i + 1, name_hash, key_hash, serial);
    }
}

/// An answer that carries the CertID of a request is about the certificate that
/// the request asks for, and declares SHA-1.
pub proof fn law_asked_certificate_is_answered(
    cert: CertificateView,
    issuer: CertificateView,
    more: Seq<u8>,
)
    requires
        serial_is_integer(cert),
        cert_id(cert, issuer) is Ok,
        cert_id(cert, issuer)->Ok_0.len() <= u32::MAX,
    ensures
        single_response(cert_id(cert, issuer)->Ok_0 + more) matches Ok(answer) ==> answer
            .hash_algorithm_oid == OID_SHA1@ && is_about(
            answer,
            sha1(issuer.subject)->Ok_0,
            sha1(issuer.public_key)->Ok_0,
            without_leading_zeros(cert.serial_number),
        ),
{
    let name_hash = sha1(issuer.subject)->Ok_0;
    let key_hash = sha1(issuer.public_key)->Ok_0;
    let body = sha1_identifier() + tlv_bytes(0x04, name_hash) + tlv_bytes(0x04, key_hash)
        + cert.serial_der;
    lemma_field_written(0x30, body, more, "CertID");
    lemma_cert_id_read_back(name_hash, key_hash, cert.serial_number);
    lemma_zeros_stripped_once(cert.serial_number);
}

proof fn lemma_field_written(tag: u8, body: Seq<u8>, after: Seq<u8>, context: &'static str)
    requires
        body.len() <= u32::MAX,
    ensures
        ocsp_field(tlv_bytes(tag, body) + after, context) == Ok::<
            (u8, Seq<u8>, Seq<u8>),
            LtvError,
        >((tag, body, after)),
{
    reveal(ocsp_field);
    law_tlv_round_trip(tag, body, after);
}

proof fn lemma_cert_id_read_back(name_hash: Seq<u8>, key_hash: Seq<u8>, serial: Seq<u8>)
    requires
        (sha1_identifier() + tlv_bytes(0x04, name_hash) + tlv_bytes(0x04, key_hash) + tlv_bytes(
            0x02,
            serial,
        )).len() <= u32::MAX,
    ensures
        cert_id_fields(
            sha1_identifier() + tlv_bytes(0x04, name_hash) + tlv_bytes(0x04, key_hash) + tlv_bytes(
                0x02,
                serial,
            ),
        ) == Ok::<(Seq<u8>, Seq<u8>, Seq<u8>, Seq<u8>), LtvError>(
            (OID_SHA1@, name_hash, key_hash, without_leading_zeros(serial)),
        ),
{
    let algorithm = tlv_bytes(0x06, OID_SHA1@) + DER_NULL@;
    let number = tlv_bytes(0x02, serial);
    let s2 = tlv_bytes(0x04, key_hash) + number;
    let s1 = tlv_bytes(0x04, name_hash) + s2;
    let body = sha1_identifier() + tlv_bytes(0x04, name_hash) + tlv_bytes(0x04, key_hash) + number;
    assert(body =~= sha1_identifier() + s1);
    lemma_field_written(0x30, algorithm, s1, "CertID hashAlgorithm");
    lemma_field_written(0x06, OID_SHA1@, DER_NULL@, "hashAlgorithm OID");
    lemma_field_written(0x04, name_hash, s2, "issuerNameHash");
    lemma_field_written(0x04, key_hash, number, "issuerKeyHash");
    let none = Seq::<u8>::empty();
    lemma_field_written(0x02, serial, none, "serialNumber");
    assert(number + none =~= number);
}

/// The outcome of a check, and the delegated responder whose own certificate must
/// still be checked.
#[derive(Debug)]
pub struct OcspCheckOutcome {
    pub status: ValidationStatus,
    pub delegated_responder: Option<Certificate>,
}

/// What an [`OcspCheckOutcome`] holds.
#[verifier::ext_equal]
pub struct OutcomeView {
    pub status: ValidationStatus,
    pub delegated_responder: Option<CertificateView>,
}

impl View for OcspCheckOutcome {
    type V = OutcomeView;

    open spec fn view(&self) -> OutcomeView {
        OutcomeView {
            status: self.status,
            delegated_responder: opt_view(self.delegated_responder),
        }
    }
}

/// The status that an answer means at a time. A revocation that lies in the future
/// of that time does not count yet.
pub open spec fn status_at(status: CertStatus, now: UtcTime) -> ValidationStatus {
    match status {
        CertStatus::Good => ValidationStatus::Valid {
            source: RevocationSource::Ocsp,
            checked_at: now,
        },
        CertStatus::Revoked { revocation_time, reason } => if revocation_time.instant()
            > now.instant() {
            ValidationStatus::Valid { source: RevocationSource::Ocsp, checked_at: now }
        } else {
            ValidationStatus::Revoked { source: RevocationSource::Ocsp, reason, revocation_time }
        },
        CertStatus::Unknown => ValidationStatus::Unknown {
            reason: "OCSP responder reported certificate status as unknown",
        },
    }
}

fn conclude_status(status: &CertStatus, now: UtcTime) -> (r: ValidationStatus)
    ensures
        r == status_at(*status, now),
{
    match status {
        CertStatus::Good => ValidationStatus::Valid {
            source: RevocationSource::Ocsp,
            checked_at: now,
        },
        CertStatus::Revoked { revocation_time, reason } => {
            if revocation_time.is_after(&now) {
                ValidationStatus::Valid { source: RevocationSource::Ocsp, checked_at: now }
            } else {
                ValidationStatus::Revoked {
                    source: RevocationSource::Ocsp,
                    reason: *reason,
                    revocation_time: *revocation_time,
                }
            }
        },
        CertStatus::Unknown => ValidationStatus::Unknown {
            reason: "OCSP responder reported certificate status as unknown",
        },
    }
}

/// A revoked certificate is valid exactly at the times before its revocation.
pub proof fn law_revocation_takes_effect(status: CertStatus, now: UtcTime)
    requires
        status is Revoked,
    ensures
        status_at(status, now) is Valid <==> now.instant() < status->revocation_time.instant(),
        status_at(status, now) is Revoked <==> status->revocation_time.instant() <= now.instant(),
{
}

/// A response echoes the nonce of the request, where there is one. Where the echo
/// is not required, a response without a nonce passes.
pub open spec fn nonce_policy(
    request: Option<Seq<u8>>,
    response: Option<Seq<u8>>,
    require_nonce: bool,
) -> Result<(), LtvError> {
    match (request, response) {
        (None, _) => Ok(()),
        (Some(sent), Some(received)) => if nonce_echoed(sent, received) {
            Ok(())
        } else {
            ocsp(Fault::Text("OCSP response nonce mismatch"))
        },
        (Some(_), None) => if require_nonce {
            ocsp(Fault::Text("OCSP response is missing the required nonce"))
        } else {
            Ok(())
        },
    }
}

fn check_nonce_policy(request: Option<&[u8]>, response: &Option<Vec<u8>>, require_nonce: bool) -> (r:
    Result<(), LtvError>)
    ensures
        r == nonce_policy(opt_view(request), opt_view(*response), require_nonce),
{
    match request {
        None => Ok(()),
        Some(sent) => match response {
            Some(received) => validate_nonce(sent, received.as_slice()),
            None => if require_nonce {
                Err(LtvError::Ocsp(Fault::Text("OCSP response is missing the required nonce")))
            } else {
                Ok(())
            },
        },
    }
}

/// A response that can be used as evidence: parsed, and signed by some certificate.
/// A required nonce must have been sent.
#[verifier::opaque]
pub open spec fn signed_evidence(
    response: Seq<u8>,
    issuer: CertificateView,
    nonce: Option<Seq<u8>>,
    legacy: bool,
    require_nonce: bool,
) -> Result<(BasicResponseView, CertificateView), LtvError> {
    if require_nonce && (nonce is None || nonce->0.len() == 0) {
        ocsp(Fault::Text("strict OCSP nonce policy requires a nonempty request nonce"))
    } else {
        match ocsp_response(response) {
            Err(e) => Err(e),
            Ok(parsed) => match verified_signer(parsed, issuer, legacy) {
                Err(e) => Err(e),
                Ok(responder) => Ok((parsed, responder)),
            },
        }
    }
}

fn collect_evidence(
    response_der: &[u8],
    issuer: &Certificate,
    nonce: Option<&[u8]>,
    policy: &SignaturePolicy,
    require_nonce: bool,
) -> (r: Result<(ParsedBasicOcspResponse, Certificate), LtvError>)
    ensures
        agrees(
            r,
            signed_evidence(
                response_der@,
                issuer@,
                opt_view(nonce),
                policy.legacy(),
                require_nonce,
            ),
        ),
{
    proof {
        reveal(signed_evidence);
    }
    if require_nonce {
        let sent: bool = match nonce {
            Some(n) => n.len() != 0,
            None => false,
        };
        if !sent {
            return Err(
                LtvError::Ocsp(
                    Fault::Text("strict OCSP nonce policy requires a nonempty request nonce"),
                ),
            );
        }
    }
    let parsed = parse_ocsp_response(response_der)?;
    let responder = verify_ocsp_response_signature(&parsed, issuer, policy)?;
    Ok((parsed, responder))
}

/// What trusted evidence says of a certificate at a time.
#[verifier::opaque]
pub open spec fn evidence_outcome(
    parsed: BasicResponseView,
    responder: CertificateView,
    check: ResponderRevocationCheck,
    cert: CertificateView,
    issuer: CertificateView,
    nonce: Option<Seq<u8>>,
    now: UtcTime,
    freshness: OcspFreshness,
    require_nonce: bool,
) -> Result<OutcomeView, LtvError> {
    match nonce_policy(nonce, parsed.nonce, require_nonce) {
        Err(e) => Err(e),
        Ok(()) => match (sha1(issuer.subject), sha1(issuer.public_key)) {
            (Ok(name_hash), Ok(key_hash)) => match matching_response(
                parsed.responses,
                0,
                name_hash,
                key_hash,
                without_leading_zeros(cert.serial_number),
            ) {
                Err(e) => Err(e),
                Ok(None) => Ok(
                    OutcomeView {
                        status: ValidationStatus::Unknown {
                            reason: "certificate not found in OCSP response",
                        },
                        delegated_responder: None,
                    },
                ),
                Ok(Some(answer)) => match response_freshness(
                    answer.this_update,
                    answer.next_update,
                    now,
                    freshness,
                ) {
                    Err(e) => Err(e),
                    Ok(()) => Ok(
                        OutcomeView {
                            status: status_at(answer.cert_status, now),
                            delegated_responder: if check is Required {
                                Some(responder)
                            } else {
                                None
                            },
                        },
                    ),
                },
            },
            _ => Err(LtvError::Crypto),
        },
    }
}

fn conclude_outcome(
    parsed: &ParsedBasicOcspResponse,
    responder: &Certificate,
    check: ResponderRevocationCheck,
    cert: &Certificate,
    issuer: &Certificate,
    nonce: Option<&[u8]>,
    now: UtcTime,
    freshness: &OcspFreshness,
    require_nonce: bool,
) -> (r: Result<OcspCheckOutcome, LtvError>)
    ensures
        agrees(
            r,
            evidence_outcome(
                parsed@,
                responder@,
                check,
                cert@,
                issuer@,
                opt_view(nonce),
                now,
                *freshness,
                require_nonce,
            ),
        ),
{
    proof {
        reveal(evidence_outcome);
    }
    check_nonce_policy(nonce, &parsed.nonce, require_nonce)?;
    let name_hash: Vec<u8> = sha1_hash(issuer.subject.as_slice())?;
    let key_hash: Vec<u8> = sha1_hash(issuer.public_key.as_slice())?;
    let serial: Vec<u8> = parse_integer_body(cert.serial_number.as_slice());
    let answer = match find_matching_response(
        parsed.responses.as_slice(),
        name_hash.as_slice(),
        key_hash.as_slice(),
        serial.as_slice(),
    )? {
        Some(a) => a,
        None => {
            return Ok(
                OcspCheckOutcome {
                    status: ValidationStatus::Unknown {
                        reason: "certificate not found in OCSP response",
                    },
                    delegated_responder: None,
                },
            );
        },
    };
    validate_response_freshness(answer, now, freshness)?;
    let delegated_responder: Option<Certificate> = match check {
        ResponderRevocationCheck::Required => Some(responder.duplicate()),
        ResponderRevocationCheck::NotRequired => None,
    };
    Ok(OcspCheckOutcome { status: conclude_status(&answer.cert_status, now), delegated_responder })
}

/// The outcome of a check without an issuer path: only the issuer itself may have
/// signed. Any other responder is refused, whatever its names are.
pub open spec fn issuer_only_outcome(
    response: Seq<u8>,
    cert: CertificateView,
    issuer: CertificateView,
    nonce: Option<Seq<u8>>,
    now: UtcTime,
    legacy: bool,
    freshness: OcspFreshness,
    require_nonce: bool,
) -> Result<OutcomeView, LtvError> {
    match signed_evidence(response, issuer, nonce, legacy, require_nonce) {
        Err(e) => Err(e),
        Ok((parsed, responder)) => match responder_trust(
            responder,
            issuer,
            parsed.responder_id,
            legacy,
            now,
            Ok(()),
        ) {
            Err(e) => Err(e),
            Ok(check) => if !same_identity(responder, issuer) {
                ocsp(
                    Fault::Text(
                        "delegated OCSP responder requires complete issuer path validation; use check_revocation_detailed_with_issuer_path",
                    ),
                )
            } else {
                evidence_outcome(
                    parsed,
                    responder,
                    check,
                    cert,
                    issuer,
                    nonce,
                    now,
                    freshness,
                    require_nonce,
                )
            },
        },
    }
}

/// Checks a certificate at a given time against a response of its issuer.
pub fn check_revocation_at(
    response_der: &[u8],
    cert: &Certificate,
    issuer: &Certificate,
    nonce: Option<&[u8]>,
    now: UtcTime,
    policy: &SignaturePolicy,
    freshness: &OcspFreshness,
    require_nonce: bool,
) -> (r: Result<OcspCheckOutcome, LtvError>)
    ensures
        agrees(
            r,
            issuer_only_outcome(
                response_der@,
                cert@,
                issuer@,
                opt_view(nonce),
                now,
                policy.legacy(),
                *freshness,
                require_nonce,
            ),
        ),
{
    let (parsed, responder) = collect_evidence(response_der, issuer, nonce, policy, require_nonce)?;
    let check = validate_responder_trust(&responder, issuer, &parsed, policy, now, Ok(()))?;
    if !certs_have_same_identity(&responder, issuer) {
        return Err(
            LtvError::Ocsp(
                Fault::Text(
                    "delegated OCSP responder requires complete issuer path validation; use check_revocation_detailed_with_issuer_path",
                ),
            ),
        );
    }
    conclude_outcome(
        &parsed,
        &responder,
        check,
        cert,
        issuer,
        nonce,
        now,
        freshness,
        require_nonce,
    )
}

/// Without an issuer path no delegated responder is accepted: what is accepted was
/// signed by the issuer, and leaves no responder to check.
pub proof fn law_no_delegation_without_path(
    response: Seq<u8>,
    cert: CertificateView,
    issuer: CertificateView,
    nonce: Option<Seq<u8>>,
    now: UtcTime,
    legacy: bool,
    freshness: OcspFreshness,
    require_nonce: bool,
)
    ensures
        issuer_only_outcome(
            response,
            cert,
            issuer,
            nonce,
            now,
            legacy,
            freshness,
            require_nonce,
        ) matches Ok(outcome) ==> outcome.delegated_responder is None && (verified_signer(
            ocsp_response(response)->Ok_0,
            issuer,
            legacy,
        ) matches Ok(signer) && same_identity(signer, issuer)),
{
    reveal(signed_evidence);
    reveal(evidence_outcome);
}

/// Under the strict nonce policy an accepted response echoes a nonempty nonce,
/// whoever signed it.
pub proof fn law_strict_nonce(
    response: Seq<u8>,
    parsed: BasicResponseView,
    responder: CertificateView,
    check: ResponderRevocationCheck,
    cert: CertificateView,
    issuer: CertificateView,
    nonce: Option<Seq<u8>>,
    now: UtcTime,
    legacy: bool,
    freshness: OcspFreshness,
)
    requires
        signed_evidence(response, issuer, nonce, legacy, true) == Ok::<
            (BasicResponseView, CertificateView),
            LtvError,
        >((parsed, responder)),
        evidence_outcome(
            parsed,
            responder,
            check,
            cert,
            issuer,
            nonce,
            now,
            freshness,
            true,
        ) is Ok,
    ensures
        nonce matches Some(sent) && sent.len() > 0 && (parsed.nonce matches Some(received)
            && nonce_echoed(sent, received)),
{
    reveal(signed_evidence);
    reveal(evidence_outcome);
}

/// A nonce that is echoed must match, also where the echo is not required.
pub proof fn law_echoed_nonce_matches(
    parsed: BasicResponseView,
    responder: CertificateView,
    check: ResponderRevocationCheck,
    cert: CertificateView,
    issuer: CertificateView,
    sent: Seq<u8>,
    received: Seq<u8>,
    now: UtcTime,
    freshness: OcspFreshness,
    require_nonce: bool,
)
    requires
        parsed.nonce == Some(received),
        evidence_outcome(
            parsed,
            responder,
            check,
            cert,
            issuer,
            Some(sent),
            now,
            freshness,
            require_nonce,
        ) is Ok,
    ensures
        nonce_echoed(sent, received),
{
    reveal(evidence_outcome);
}

/// Only fresh answers count: where a certificate is found valid or revoked, an
/// answer about it says so, and that answer is fresh. In particular a stale answer
/// is never taken for a good one.
pub proof fn law_only_fresh_answers_count(
    parsed: BasicResponseView,
    responder: CertificateView,
    check: ResponderRevocationCheck,
    cert: CertificateView,
    issuer: CertificateView,
    nonce: Option<Seq<u8>>,
    now: UtcTime,
    freshness: OcspFreshness,
    require_nonce: bool,
    outcome: OutcomeView,
)
    requires
        evidence_outcome(
            parsed,
            responder,
            check,
            cert,
            issuer,
            nonce,
            now,
            freshness,
            require_nonce,
        ) == Ok::<OutcomeView, LtvError>(outcome),
        outcome.status is Valid || outcome.status is Revoked,
    ensures
        exists|answer: SingleResponseView| #[trigger]
            parsed.responses.contains(answer) && is_about(
                answer,
                sha1(issuer.subject)->Ok_0,
                sha1(issuer.public_key)->Ok_0,
                without_leading_zeros(cert.serial_number),
            ) && response_freshness(answer.this_update, answer.next_update, now, freshness) is Ok
                && outcome.status == status_at(answer.cert_status, now),
{
    reveal(evidence_outcome);
    let name_hash = sha1(issuer.subject)->Ok_0;
    let key_hash = sha1(issuer.public_key)->Ok_0;
    let serial = without_leading_zeros(cert.serial_number);
    law_matching_response(parsed.responses, 0, name_hash, key_hash, serial);
    let answer = matching_response(parsed.responses, 0, name_hash, key_hash, serial)->Ok_0->0;
    assert(parsed.responses.contains(answer));
}

/// When the response was made does not matter.
pub proof fn law_production_time_does_not_matter(
    parsed: BasicResponseView,
    produced_at: UtcTime,
    responder: CertificateView,
    check: ResponderRevocationCheck,
    cert: CertificateView,
    issuer: CertificateView,
    nonce: Option<Seq<u8>>,
    now: UtcTime,
    freshness: OcspFreshness,
    require_nonce: bool,
)
    ensures
        evidence_outcome(
            (BasicResponseView { produced_at, ..parsed }),
            responder,
            check,
            cert,
            issuer,
            nonce,
            now,
            freshness,
            require_nonce,
        ) == evidence_outcome(
            parsed,
            responder,
            check,
            cert,
            issuer,
            nonce,
            now,
            freshness,
            require_nonce,
        ),
{
    reveal(evidence_outcome);
}

/// The time of a check: the given one, or the current one.
pub open spec fn is_check_time(validation_time: Option<UtcTime>, now: UtcTime) -> bool {
    validation_time matches Some(t) ==> now == t
}

fn check_time(validation_time: Option<UtcTime>) -> (now: UtcTime)
    ensures
        is_check_time(validation_time, now),
{
    match validation_time {
        Some(t) => t,
        None => UtcTime::now(),
    }
}

/// Checks a certificate against a response of its issuer, with or without a
/// required nonce. Without a validation time the current time is used.
pub fn check_revocation_detailed_with_nonce_policy(
    response_der: &[u8],
    cert: &Certificate,
    issuer: &Certificate,
    nonce: Option<&[u8]>,
    validation_time: Option<UtcTime>,
    policy: &SignaturePolicy,
    freshness: &OcspFreshness,
    require_nonce: bool,
) -> (r: Result<OcspCheckOutcome, LtvError>)
    ensures
        exists|now: UtcTime| #[trigger]
            is_check_time(validation_time, now) && agrees(
                r,
                issuer_only_outcome(
                    response_der@,
                    cert@,
                    issuer@,
                    opt_view(nonce),
                    now,
                    policy.legacy(),
                    *freshness,
                    require_nonce,
                ),
            ),
{
    let now = check_time(validation_time);
    check_revocation_at(
        response_der,
        cert,
        issuer,
        nonce,
        now,
        policy,
        freshness,
        require_nonce,
    )
}

/// Checks a certificate against a response of its issuer. A response may leave out
/// the nonce.
pub fn check_revocation_detailed(
    response_der: &[u8],
    cert: &Certificate,
    issuer: &Certificate,
    nonce: Option<&[u8]>,
    validation_time: Option<UtcTime>,
    policy: &SignaturePolicy,
    freshness: &OcspFreshness,
) -> (r: Result<OcspCheckOutcome, LtvError>)
    ensures
        exists|now: UtcTime| #[trigger]
            is_check_time(validation_time, now) && agrees(
                r,
                issuer_only_outcome(
                    response_der@,
                    cert@,
                    issuer@,
                    opt_view(nonce),
                    now,
                    policy.legacy(),
                    *freshness,
                    false,
                ),
            ),
{
    check_revocation_detailed_with_nonce_policy(
        response_der,
        cert,
        issuer,
        nonce,
        validation_time,
        policy,
        freshness,
        false,
    )
}

/// The status of an outcome that leaves nothing to check.
pub open spec fn completed_status(outcome: OutcomeView) -> Result<ValidationStatus, LtvError> {
    if outcome.delegated_responder is Some {
        ocsp(
            Fault::Text(
                "delegated responder requires its own revocation check; use check_revocation_detailed or the async orchestrator",
            ),
        )
    } else {
        Ok(outcome.status)
    }
}

/// Takes the status of an outcome that leaves nothing to check.
pub fn complete_ocsp_outcome(outcome: OcspCheckOutcome) -> (r: Result<ValidationStatus, LtvError>)
    ensures
        r == completed_status(outcome@),
{
    if outcome.delegated_responder.is_some() {
        return Err(
            LtvError::Ocsp(
                Fault::Text(
                    "delegated responder requires its own revocation check; use check_revocation_detailed or the async orchestrator",
                ),
            ),
        );
    }
    Ok(outcome.status)
}

/// The status of a certificate from a response of its issuer.
pub open spec fn issuer_only_status(
    response: Seq<u8>,
    cert: CertificateView,
    issuer: CertificateView,
    nonce: Option<Seq<u8>>,
    now: UtcTime,
    legacy: bool,
    freshness: OcspFreshness,
) -> Result<ValidationStatus, LtvError> {
    match issuer_only_outcome(response, cert, issuer, nonce, now, legacy, freshness, false) {
        Err(e) => Err(e),
        Ok(outcome) => completed_status(outcome),
    }
}

/// Checks a certificate under a signature policy and a freshness policy.
pub fn check_revocation_with_options(
    response_der: &[u8],
    cert: &Certificate,
    issuer: &Certificate,
    nonce: Option<&[u8]>,
    validation_time: Option<UtcTime>,
    policy: &SignaturePolicy,
    freshness: &OcspFreshness,
) -> (r: Result<ValidationStatus, LtvError>)
    ensures
        exists|now: UtcTime| #[trigger]
            is_check_time(validation_time, now) && r == issuer_only_status(
                response_der@,
                cert@,
                issuer@,
                opt_view(nonce),
                now,
                policy.legacy(),
                *freshness,
            ),
{
    let outcome = check_revocation_detailed(
        response_der,
        cert,
        issuer,
        nonce,
        validation_time,
        policy,
        freshness,
    )?;
    complete_ocsp_outcome(outcome)
}

/// The default freshness policy: five minutes of skew, and a day without a next
/// update.
pub open spec fn default_freshness() -> OcspFreshness {
    OcspFreshness {
        clock_skew: TimeSpan { seconds: 300, nanos: 0 },
        max_age_without_next_update: TimeSpan { seconds: 86_400, nanos: 0 },
    }
}

/// Checks a certificate under a signature policy and the default freshness policy.
pub fn check_revocation_with_policy(
    response_der: &[u8],
    cert: &Certificate,
    issuer: &Certificate,
    nonce: Option<&[u8]>,
    validation_time: Option<UtcTime>,
    policy: &SignaturePolicy,
) -> (r: Result<ValidationStatus, LtvError>)
    ensures
        exists|now: UtcTime| #[trigger]
            is_check_time(validation_time, now) && r == issuer_only_status(
                response_der@,
                cert@,
                issuer@,
                opt_view(nonce),
                now,
                policy.legacy(),
                default_freshness(),
            ),
{
    let freshness = OcspFreshness::default();
    check_revocation_with_options(
        response_der,
        cert,
        issuer,
        nonce,
        validation_time,
        policy,
        &freshness,
    )
}

/// Checks a certificate under the strict signature policy and the default
/// freshness policy.
pub fn check_revocation(
    response_der: &[u8],
    cert: &Certificate,
    issuer: &Certificate,
    nonce: Option<&[u8]>,
    validation_time: Option<UtcTime>,
) -> (r: Result<ValidationStatus, LtvError>)
    ensures
        exists|now: UtcTime| #[trigger]
            is_check_time(validation_time, now) && r == issuer_only_status(
                response_der@,
                cert@,
                issuer@,
                opt_view(nonce),
                now,
                false,
                default_freshness(),
            ),
{
    let policy = SignaturePolicy::default();
    check_revocation_with_policy(response_der, cert, issuer, nonce, validation_time, &policy)
}

/// The path validation of a time is possible: it lies in the years from 1970 to
/// 9999.
pub open spec fn path_time_fault(now: UtcTime) -> Option<Fault> {
    if now.seconds < -62_167_219_200 || now.seconds >= 2_005_949_145_600 {
        Some(Fault::Text("OCSP validation year is outside DER DateTime range"))
    } else if now.seconds < 0 || now.seconds > 253_402_300_799 {
        Some(Fault::Text("OCSP path validation time is outside DER DateTime range"))
    } else {
        None
    }
}

/// `at` is the second of the calendar in which a time lies.
pub open spec fn is_second_of(at: CivilTime, now: UtcTime) -> bool {
    at.valid() && at.year >= 1970 && at.epoch_seconds() == now.seconds
}

/// The path that is put to a trust store. A weak signature is admitted only where
/// both the caller's and the store's policy admit it.
pub open spec fn path_question(
    chain: Seq<CertificateView>,
    at: CivilTime,
    now: UtcTime,
    role: CertRole,
    legacy: bool,
    store_legacy: bool,
) -> PathQueryView {
    PathQueryView {
        chain,
        at,
        positive_fraction: now.nanos != 0,
        role,
        legacy: legacy && store_legacy,
    }
}

/// The result of a path validation with a given verdict.
pub open spec fn after_path(verdict: Result<(), TrustError>) -> Result<(), LtvError> {
    match verdict {
        Err(e) => ocsp(Fault::Trust("OCSP certificate issuer path", e)),
        Ok(()) => Ok(()),
    }
}

/// `r` is a result of validating a path at a time: an error where the time cannot
/// be put to a trust store, and else what a verdict of the store means.
pub open spec fn path_result<P: Fn(&TrustQuery) -> Result<(), TrustError>>(
    store: TrustStore<P>,
    chain: Seq<CertificateView>,
    now: UtcTime,
    role: CertRole,
    legacy: bool,
    r: Result<(), LtvError>,
) -> bool {
    match path_time_fault(now) {
        Some(fault) => r == ocsp::<()>(fault),
        None => exists|at: CivilTime, verdict: Result<(), TrustError>| #[trigger]
            is_second_of(at, now) && #[trigger] store.answers(
                TrustQueryView::Path(
                    path_question(chain, at, now, role, legacy, store.policy.legacy()),
                ),
                verdict,
            ) && r == after_path(verdict),
    }
}

/// Validates a path at a time.
pub fn validate_ocsp_certificate_path<P: Fn(&TrustQuery) -> Result<(), TrustError>>(
    chain: &[Certificate],
    store: &TrustStore<P>,
    role: CertRole,
    policy: &SignaturePolicy,
    now: UtcTime,
) -> (r: Result<(), LtvError>)
    requires
        store.total(),
    ensures
        path_result(*store, certificate_views(chain@), now, role, policy.legacy(), r),
{
    if now.seconds < -62_167_219_200 || now.seconds >= 2_005_949_145_600 {
        return Err(
            LtvError::Ocsp(Fault::Text("OCSP validation year is outside DER DateTime range")),
        );
    }
    if now.seconds < 0 || now.seconds > 253_402_300_799 {
        return Err(
            LtvError::Ocsp(Fault::Text("OCSP path validation time is outside DER DateTime range")),
        );
    }
    let at = CivilTime::from_epoch_seconds(now.seconds);
    let effective = if policy.legacy_allowed() && store.signature_policy().legacy_allowed() {
        SignaturePolicy::allow_legacy()
    } else {
        SignaturePolicy::strict()
    };
    let query = PathQuery {
        chain: duplicate_all(chain),
        at,
        positive_fraction: now.nanos != 0,
        role,
        policy: effective,
    };
    assert(is_second_of(at, now));
    assert(query@ == path_question(
        certificate_views(chain@),
        at,
        now,
        role,
        policy.legacy(),
        store.policy.legacy(),
    ));
    let verdict = store.verify_path(query);
    match verdict {
        Err(e) => Err(LtvError::Ocsp(Fault::Trust("OCSP certificate issuer path", e))),
        Ok(()) => Ok(()),
    }
}

/// The outcome of a check with an issuer path, from the result of validating the
/// issuer's path and, for a delegated responder, the verdict on its names and the
/// result of validating its path.
pub open spec fn path_outcome(
    parsed: BasicResponseView,
    responder: CertificateView,
    cert: CertificateView,
    issuer: CertificateView,
    nonce: Option<Seq<u8>>,
    now: UtcTime,
    legacy: bool,
    freshness: OcspFreshness,
    require_nonce: bool,
    issuer_path: Result<(), LtvError>,
    responder_names: Result<(), TrustError>,
    responder_path: Result<(), LtvError>,
) -> Result<OutcomeView, LtvError> {
    match issuer_path {
        Err(e) => Err(e),
        Ok(()) => match responder_trust(
            responder,
            issuer,
            parsed.responder_id,
            legacy,
            now,
            responder_names,
        ) {
            Err(e) => Err(e),
            Ok(check) => if !same_identity(responder, issuer) && responder_path is Err {
                Err(responder_path->Err_0)
            } else {
                evidence_outcome(
                    parsed,
                    responder,
                    check,
                    cert,
                    issuer,
                    nonce,
                    now,
                    freshness,
                    require_nonce,
                )
            },
        },
    }
}

/// `r` is a result of checking a certificate at a time with an issuer path: what
/// some answers to the questions that are asked mean. Of a responder that is not the
/// issuer it is asked whether it meets the issuer's name constraints, where the
/// issuer's path is valid; and whether its path is valid, where it may sign for the
/// issuer.
pub open spec fn path_checked<P: Fn(&TrustQuery) -> Result<(), TrustError>>(
    response: Seq<u8>,
    cert: CertificateView,
    issuer: CertificateView,
    nonce: Option<Seq<u8>>,
    now: UtcTime,
    legacy: bool,
    freshness: OcspFreshness,
    chain: Seq<CertificateView>,
    store: TrustStore<P>,
    require_nonce: bool,
    r: Result<OcspCheckOutcome, LtvError>,
) -> bool {
    match signed_evidence(response, issuer, nonce, legacy, require_nonce) {
        Err(e) => agrees(r, Err(e)),
        Ok((parsed, responder)) => exists|
            a: Result<(), LtvError>,
            n: Result<(), TrustError>,
            b: Result<(), LtvError>,
        |
            {
                &&& #[trigger] path_result(
                    store,
                    chain,
                    now,
                    CertRole::IntermediateCa,
                    legacy,
                    a,
                )
                &&& (a is Ok && !same_identity(responder, issuer)) ==> store.answers(
                    TrustQueryView::Names { issuer, subject: responder },
                    n,
                ) && (responder_trust(
                    responder,
                    issuer,
                    parsed.responder_id,
                    legacy,
                    now,
                    n,
                ) is Ok ==> path_result(
                    store,
                    seq![responder] + chain,
                    now,
                    CertRole::OcspResponder,
                    legacy,
                    b,
                ))
                &&& agrees(
                    r,
                    #[trigger] path_outcome(
                        parsed,
                        responder,
                        cert,
                        issuer,
                        nonce,
                        now,
                        legacy,
                        freshness,
                        require_nonce,
                        a,
                        n,
                        b,
                    ),
                )
            },
    }
}

/// Checks a certificate at a given time against a response, with the path of its
/// issuer.
pub fn check_revocation_with_path_at<P: Fn(&TrustQuery) -> Result<(), TrustError>>(
    response_der: &[u8],
    cert: &Certificate,
    issuer: &Certificate,
    nonce: Option<&[u8]>,
    now: UtcTime,
    policy: &SignaturePolicy,
    freshness: &OcspFreshness,
    issuer_chain: &[Certificate],
    trust_store: &TrustStore<P>,
    require_nonce: bool,
) -> (r: Result<OcspCheckOutcome, LtvError>)
    requires
        trust_store.total(),
    ensures
        path_checked(
            response_der@,
            cert@,
            issuer@,
            opt_view(nonce),
            now,
            policy.legacy(),
            *freshness,
            certificate_views(issuer_chain@),
            *trust_store,
            require_nonce,
            r,
        ),
{
    let (parsed, responder) = collect_evidence(response_der, issuer, nonce, policy, require_nonce)?;
    let ghost chain = certificate_views(issuer_chain@);
    let ghost legacy = policy.legacy();
    let issuer_path = validate_ocsp_certificate_path(
        issuer_chain,
        trust_store,
        CertRole::IntermediateCa,
        policy,
        now,
    );
    let ghost unasked: Result<(), LtvError> = Ok(());
    if let Err(e) = issuer_path {
        assert(path_outcome(
            parsed@,
            responder@,
            cert@,
            issuer@,
            opt_view(nonce),
            now,
            legacy,
            *freshness,
            require_nonce,
            issuer_path,
            Ok(()),
            unasked,
        ) == Err::<OutcomeView, LtvError>(e));
        return Err(e);
    }
    let delegated: bool = !certs_have_same_identity(&responder, issuer);
    let names: Result<(), TrustError> = if delegated {
        trust_store.verify_names(issuer, &responder)
    } else {
        Ok(())
    };
    let check = match validate_responder_trust(&responder, issuer, &parsed, policy, now, names) {
        Err(e) => {
            assert(path_outcome(
                parsed@,
                responder@,
                cert@,
                issuer@,
                opt_view(nonce),
                now,
                legacy,
                *freshness,
                require_nonce,
                issuer_path,
                names,
                unasked,
            ) == Err::<OutcomeView, LtvError>(e));
            return Err(e);
        },
        Ok(c) => c,
    };
    let ghost mut responder_path = unasked;
    if delegated {
        let mut path: Vec<Certificate> = Vec::new();
        path.push(responder.duplicate());
        let mut rest: Vec<Certificate> = duplicate_all(issuer_chain);
        let ghost above = rest@;
        path.append(&mut rest);
        assert(certificate_views(path@) =~= seq![responder@] + certificate_views(above));
        let result = validate_ocsp_certificate_path(
            path.as_slice(),
            trust_store,
            CertRole::OcspResponder,
            policy,
            now,
        );
        proof {
            responder_path = result;
        }
        if let Err(e) = result {
            assert(path_outcome(
                parsed@,
                responder@,
                cert@,
                issuer@,
                opt_view(nonce),
                now,
                legacy,
                *freshness,
                require_nonce,
                issuer_path,
                names,
                responder_path,
            ) == Err::<OutcomeView, LtvError>(e));
            return Err(e);
        }
    }
    let r = conclude_outcome(
        &parsed,
        &responder,
        check,
        cert,
        issuer,
        nonce,
        now,
        freshness,
        require_nonce,
    );
    assert(agrees(
        r,
        path_outcome(
            parsed@,
            responder@,
            cert@,
            issuer@,
            opt_view(nonce),
            now,
            legacy,
            *freshness,
            require_nonce,
            issuer_path,
            names,
            responder_path,
        ),
    ));
    r
}

/// Checks a certificate against a response, with the path of its issuer. The path
/// must start with the issuer.
pub fn check_revocation_detailed_with_issuer_path<P: Fn(&TrustQuery) -> Result<(), TrustError>>(
    response_der: &[u8],
    cert: &Certificate,
    issuer: &Certificate,
    nonce: Option<&[u8]>,
    validation_time: Option<UtcTime>,
    policy: &SignaturePolicy,
    freshness: &OcspFreshness,
    issuer_chain: &[Certificate],
    trust_store: &TrustStore<P>,
    require_nonce: bool,
) -> (r: Result<OcspCheckOutcome, LtvError>)
    requires
        trust_store.total(),
    ensures
        issuer_chain@.len() == 0 || issuer_chain@[0]@.der != issuer@.der ==> agrees(
            r,
            ocsp(Fault::Text("OCSP issuer path does not start with the expected issuer")),
        ),
        issuer_chain@.len() > 0 && issuer_chain@[0]@.der == issuer@.der ==> exists|now: UtcTime|
            #[trigger] is_check_time(validation_time, now) && path_checked(
                response_der@,
                cert@,
                issuer@,
                opt_view(nonce),
                now,
                policy.legacy(),
                *freshness,
                certificate_views(issuer_chain@),
                *trust_store,
                require_nonce,
                r,
            ),
{
    if issuer_chain.len() == 0 || !issuer_chain[0].same_as(issuer) {
        return Err(
            LtvError::Ocsp(
                Fault::Text("OCSP issuer path does not start with the expected issuer"),
            ),
        );
    }
    let now = check_time(validation_time);
    check_revocation_with_path_at(
        response_der,
        cert,
        issuer,
        nonce,
        now,
        policy,
        freshness,
        issuer_chain,
        trust_store,
        require_nonce,
    )
}

/// A path that is not valid refuses every response, also of the issuer itself; and
/// a delegated responder is accepted only with its names in order and a valid path
/// of its own.
pub proof fn law_path_is_needed(
    parsed: BasicResponseView,
    responder: CertificateView,
    cert: CertificateView,
    issuer: CertificateView,
    nonce: Option<Seq<u8>>,
    now: UtcTime,
    legacy: bool,
    freshness: OcspFreshness,
    require_nonce: bool,
    issuer_path: Result<(), LtvError>,
    responder_names: Result<(), TrustError>,
    responder_path: Result<(), LtvError>,
)
    requires
        path_outcome(
            parsed,
            responder,
            cert,
            issuer,
            nonce,
            now,
            legacy,
            freshness,
            require_nonce,
            issuer_path,
            responder_names,
            responder_path,
        ) is Ok,
    ensures
        issuer_path is Ok,
        !same_identity(responder, issuer) ==> responder_names is Ok && responder_path is Ok,
{
}

} // verus!
