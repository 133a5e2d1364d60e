//! What the outcome of a revocation check rests on.

use vstd::prelude::*;

#[allow(unused_imports)]
use crate::agrees;
#[allow(unused_imports)]
use crate::bytes::{be_value, law_same_number, lemma_zeros_stripped_once, without_leading_zeros};
#[allow(unused_imports)]
use crate::cert::{same_identity, CertificateView};
#[allow(unused_imports)]
use crate::crypto::algorithm::{hash_of, HashAlgorithm, OID_SHA1};
#[allow(unused_imports)]
use crate::der_utils::{tlv, tlv_bytes};
#[allow(unused_imports)]
use crate::error::{LtvError, TrustError};
#[allow(unused_imports)]
use crate::ltv::ocsp::check::{
    after_path, completed_status, default_freshness, evidence_outcome, is_about, is_check_time,
    is_second_of, issuer_only_outcome, issuer_only_status, law_matching_response,
    law_path_is_needed, matching_response, nonce_policy, path_checked, path_outcome, path_question,
    path_result, path_time_fault, response_freshness, signed_evidence, status_at, OcspCheckOutcome,
    OcspFreshness, OutcomeView,
};
#[allow(unused_imports)]
use crate::ltv::ocsp::responder::{
    responder_matches, responder_trust, verified_signer, ResponderRevocationCheck,
};
#[allow(unused_imports)]
use crate::ltv::ocsp::response::{ocsp_response, BasicResponseView, SingleResponseView};
#[allow(unused_imports)]
use crate::ltv::status::{CertRole, ValidationStatus};
#[allow(unused_imports)]
use crate::time::{CivilTime, UtcTime};
#[allow(unused_imports)]
use crate::trust::{PathQueryView, TrustQuery, TrustQueryView, TrustStore};

verus! {

/// An answer is about a certificate exactly where both hashes of the issuer are the
/// same and the serial numbers are the same number.
pub proof fn law_answer_is_about(
    r: SingleResponseView,
    name_hash: Seq<u8>,
    key_hash: Seq<u8>,
    serial: Seq<u8>,
)
    requires
        r.serial_number.len() >= 1,
        serial.len() >= 1,
    ensures
        is_about(r, name_hash, key_hash, serial) <==> r.issuer_name_hash == name_hash
            && r.issuer_key_hash == key_hash && be_value(r.serial_number) == be_value(serial),
{
    law_same_number(r.serial_number, serial);
}

/// The answer that counts is the first about the certificate; it must name SHA-1.
pub proof fn law_first_answer_counts(
    list: Seq<SingleResponseView>,
    i: nat,
    name_hash: Seq<u8>,
    key_hash: Seq<u8>,
    serial: Seq<u8>,
    at: int,
)
    requires
        i <= at < list.len(),
        is_about(list[at], name_hash, key_hash, serial),
        forall|k: int| i <= k < at ==> !is_about(#[trigger] list[k], name_hash, key_hash, serial),
    ensures
        list[at].hash_algorithm_oid == OID_SHA1@ ==> matching_response(
            list,
            i,
            name_hash,
            key_hash,
            serial,
        ) == Ok::<Option<SingleResponseView>, LtvError>(Some(list[at])),
        list[at].hash_algorithm_oid != OID_SHA1@ ==> matching_response(
            list,
            i,
            name_hash,
            key_hash,
            serial,
        ) is Err,
    decreases list.len() - i,
{
    if i < at {
        assert(!is_about(list[i as int], name_hash, key_hash, serial));
        law_first_answer_counts(list, i + 1, name_hash, key_hash, serial, at);
    }
}

/// Without an answer about the certificate there is none, and no error.
pub proof fn law_no_answer(
    list: Seq<SingleResponseView>,
    i: nat,
    name_hash: Seq<u8>,
    key_hash: Seq<u8>,
    serial: Seq<u8>,
)
    requires
        forall|k: int|
            i <= k < list.len() ==> !is_about(#[trigger] list[k], name_hash, key_hash, serial),
    ensures
        matching_response(list, i, name_hash, key_hash, serial) == Ok::<
            Option<SingleResponseView>,
            LtvError,
        >(None),
    decreases list.len() - i,
{
    if i < list.len() {
        assert(!is_about(list[i as int], name_hash, key_hash, serial));
        law_no_answer(list, i + 1, name_hash, key_hash, serial);
    }
}

/// An answer is fresh up to the time of the next one, or without that time up to the
/// greatest age, each widened by the clock skew; and the next time is not before its
/// own.
pub proof fn law_fresh_until(
    this_update: UtcTime,
    next: UtcTime,
    now: UtcTime,
    freshness: OcspFreshness,
)
    ensures
        response_freshness(this_update, Some(next), now, freshness) is Ok <==> this_update.instant()
            <= next.instant() && now.instant() - next.instant() <= freshness.clock_skew.length(),
        response_freshness(this_update, None, now, freshness) is Ok <==> now.instant()
            - this_update.instant() <= freshness.max_age_without_next_update.length()
            + freshness.clock_skew.length(),
{
}

/// A response is accepted for its nonce exactly where none was sent, or the one that
/// came back is the one that was sent, or none came back and none is required.
pub proof fn law_nonce_policy(
    request: Option<Seq<u8>>,
    response: Option<Seq<u8>>,
    require_nonce: bool,
)
    ensures
        nonce_policy(request, response, require_nonce) is Ok <==> (request matches Some(sent) ==> {
            ||| response matches Some(received) && (received == sent || received == tlv_bytes(
                0x04,
                sent,
            ) || (tlv(received) matches Ok((tag, body, rest)) && tag == 0x04 && rest.len() == 0
                && body == sent))
            ||| response is None && !require_nonce
        }),
{
}

/// A fresh answer about the certificate that came with an accepted nonce decides the
/// outcome: its status at that time, and the responder where its own revocation must
/// still be checked.
pub proof fn law_answer_decides(
    parsed: BasicResponseView,
    responder: CertificateView,
    check: ResponderRevocationCheck,
    cert: CertificateView,
    issuer: CertificateView,
    nonce: Option<Seq<u8>>,
    now: UtcTime,
    freshness: OcspFreshness,
    require_nonce: bool,
    name_hash: Seq<u8>,
    key_hash: Seq<u8>,
    at: int,
)
    requires
        nonce_policy(nonce, parsed.nonce, require_nonce) is Ok,
        hash_of(HashAlgorithm::Sha1, issuer.subject) == Some(name_hash),
        hash_of(HashAlgorithm::Sha1, issuer.public_key) == Some(key_hash),
        0 <= at < parsed.responses.len(),
        cert.serial_number.len() >= 1,
        is_about(parsed.responses[at], name_hash, key_hash, cert.serial_number),
        parsed.responses[at].hash_algorithm_oid == OID_SHA1@,
        forall|k: int|
            0 <= k < at ==> !is_about(
                #[trigger] parsed.responses[k],
                name_hash,
                key_hash,
                cert.serial_number,
            ),
        response_freshness(
            parsed.responses[at].this_update,
            parsed.responses[at].next_update,
            now,
            freshness,
        ) is Ok,
    ensures
        evidence_outcome(
            parsed,
            responder,
            check,
            cert,
            issuer,
            nonce,
            now,
            freshness,
            require_nonce,
        ) == Ok::<OutcomeView, LtvError>(
            OutcomeView {
                status: status_at(parsed.responses[at].cert_status, now),
                delegated_responder: if check is Required {
                    Some(responder)
                } else {
                    None
                },
            },
        ),
{
    reveal(evidence_outcome);
    let serial = without_leading_zeros(cert.serial_number);
    lemma_zeros_stripped_once(cert.serial_number);
    assert forall|k: int| 0 <= k < at implies !is_about(
        #[trigger] parsed.responses[k],
        name_hash,
        key_hash,
        serial,
    ) by {
        assert(!is_about(parsed.responses[k], name_hash, key_hash, cert.serial_number));
    }
    law_first_answer_counts(parsed.responses, 0, name_hash, key_hash, serial, at);
}

/// What an outcome rests on: an accepted nonce, and an answer about the certificate
/// under SHA-1 that is fresh, whose status is the one reported; or no answer about the
/// certificate, and then its status is unknown.
pub proof fn law_outcome_rests_on_an_answer(
    parsed: BasicResponseView,
    responder: CertificateView,
    check: ResponderRevocationCheck,
    cert: CertificateView,
    issuer: CertificateView,
    nonce: Option<Seq<u8>>,
    now: UtcTime,
    freshness: OcspFreshness,
    require_nonce: bool,
    outcome: OutcomeView,
)
    requires
        evidence_outcome(
            parsed,
            responder,
            check,
            cert,
            issuer,
            nonce,
            now,
            freshness,
            require_nonce,
        ) == Ok::<OutcomeView, LtvError>(outcome),
    ensures
        nonce_policy(nonce, parsed.nonce, require_nonce) is Ok,
        hash_of(HashAlgorithm::Sha1, issuer.subject) matches Some(name_hash) && (hash_of(
            HashAlgorithm::Sha1,
            issuer.public_key,
        ) matches Some(key_hash) && {
            ||| outcome.status is Unknown && outcome.delegated_responder is None && forall|k: int|
                0 <= k < parsed.responses.len() ==> !is_about(
                    #[trigger] parsed.responses[k],
                    name_hash,
                    key_hash,
                    cert.serial_number,
                )
            ||| (outcome.delegated_responder is Some <==> check is Required) && (
            outcome.delegated_responder matches Some(d) ==> d == responder) && exists|k: int|
                0 <= k < parsed.responses.len() && is_about(
                    #[trigger] parsed.responses[k],
                    name_hash,
                    key_hash,
                    cert.serial_number,
                ) && parsed.responses[k].hash_algorithm_oid == OID_SHA1@ && response_freshness(
                    parsed.responses[k].this_update,
                    parsed.responses[k].next_update,
                    now,
                    freshness,
                ) is Ok && outcome.status == status_at(parsed.responses[k].cert_status, now)
        }),
{
    reveal(evidence_outcome);
    let name_hash = hash_of(HashAlgorithm::Sha1, issuer.subject)->0;
    let key_hash = hash_of(HashAlgorithm::Sha1, issuer.public_key)->0;
    let serial = without_leading_zeros(cert.serial_number);
    lemma_zeros_stripped_once(cert.serial_number);
    law_matching_response(parsed.responses, 0, name_hash, key_hash, serial);
    match matching_response(parsed.responses, 0, name_hash, key_hash, serial) {
        Ok(Some(answer)) => {
            let k = choose|k: int| 0 <= k < parsed.responses.len() && parsed.responses[k] == answer;
            assert(is_about(parsed.responses[k], name_hash, key_hash, cert.serial_number));
        },
        Ok(None) => {
            assert forall|k: int| 0 <= k < parsed.responses.len() implies !is_about(
                #[trigger] parsed.responses[k],
                name_hash,
                key_hash,
                cert.serial_number,
            ) by {
                assert(!is_about(parsed.responses[k], name_hash, key_hash, serial));
            }
        },
        Err(_) => {},
    }
}

/// The evidence of a response is what it says, under the certificate that signed it; a
/// nonce is asked for only where one was sent.
pub proof fn law_signed_evidence(
    response: Seq<u8>,
    issuer: CertificateView,
    nonce: Option<Seq<u8>>,
    legacy: bool,
    require_nonce: bool,
    parsed: BasicResponseView,
    signer: CertificateView,
)
    ensures
        signed_evidence(response, issuer, nonce, legacy, require_nonce) == Ok::<
            (BasicResponseView, CertificateView),
            LtvError,
        >((parsed, signer)) <==> {
            &&& require_nonce ==> (nonce matches Some(n) && n.len() > 0)
            &&& ocsp_response(response) == Ok::<BasicResponseView, LtvError>(parsed)
            &&& verified_signer(parsed, issuer, legacy) == Ok::<CertificateView, LtvError>(signer)
        },
{
    reveal(signed_evidence);
}

/// Evidence counts at the time of the check, and that of a caller is the one used.
pub proof fn law_check_time(t: UtcTime, now: UtcTime)
    ensures
        is_check_time(Some(t), now) <==> now == t,
{
}

/// A status is final exactly where no responder is left to be checked.
pub proof fn law_final_status(outcome: OutcomeView)
    ensures
        completed_status(outcome) is Ok <==> outcome.delegated_responder is None,
        completed_status(outcome) matches Ok(s) ==> s == outcome.status,
{
}

/// By default a clock may be five minutes off, and an answer without a next time counts
/// for a day.
pub proof fn law_default_freshness(this_update: UtcTime, next: UtcTime, now: UtcTime)
    ensures
        response_freshness(this_update, Some(next), now, default_freshness()) is Ok
            <==> this_update.instant() <= next.instant() && now.instant() <= next.instant()
            + 300 * 1_000_000_000,
        response_freshness(this_update, None, now, default_freshness()) is Ok <==> now.instant()
            <= this_update.instant() + (24 * 3600 + 300) * 1_000_000_000,
{
}

/// Without a path the outcome is that of the evidence, where the issuer itself signed
/// it and may answer at that time; it is owed then.
pub proof fn law_issuer_answers(
    response: Seq<u8>,
    cert: CertificateView,
    issuer: CertificateView,
    nonce: Option<Seq<u8>>,
    now: UtcTime,
    legacy: bool,
    freshness: OcspFreshness,
    require_nonce: bool,
    parsed: BasicResponseView,
)
    requires
        signed_evidence(response, issuer, nonce, legacy, require_nonce) == Ok::<
            (BasicResponseView, CertificateView),
            LtvError,
        >((parsed, issuer)),
        responder_matches(issuer, parsed.responder_id) is Ok,
        issuer.not_before * 1_000_000_000 <= now.instant() <= issuer.not_after * 1_000_000_000,
    ensures
        issuer_only_outcome(
            response,
            cert,
            issuer,
            nonce,
            now,
            legacy,
            freshness,
            require_nonce,
        ) == evidence_outcome(
            parsed,
            issuer,
            ResponderRevocationCheck::NotRequired,
            cert,
            issuer,
            nonce,
            now,
            freshness,
            require_nonce,
        ),
{
}

/// With a path the outcome is that of the evidence, where the path of the issuer holds
/// and the responder is trusted, and its own path holds unless it is the issuer.
pub proof fn law_path_answers(
    parsed: BasicResponseView,
    responder: CertificateView,
    cert: CertificateView,
    issuer: CertificateView,
    nonce: Option<Seq<u8>>,
    now: UtcTime,
    legacy: bool,
    freshness: OcspFreshness,
    require_nonce: bool,
    issuer_path: Result<(), LtvError>,
    names: Result<(), TrustError>,
    responder_path: Result<(), LtvError>,
    check: ResponderRevocationCheck,
)
    requires
        issuer_path is Ok,
        responder_trust(responder, issuer, parsed.responder_id, legacy, now, names) == Ok::<
            ResponderRevocationCheck,
            LtvError,
        >(check),
        (responder.subject == issuer.subject && responder.spki == issuer.spki)
            || responder_path is Ok,
    ensures
        path_outcome(
            parsed,
            responder,
            cert,
            issuer,
            nonce,
            now,
            legacy,
            freshness,
            require_nonce,
            issuer_path,
            names,
            responder_path,
        ) == evidence_outcome(
            parsed,
            responder,
            check,
            cert,
            issuer,
            nonce,
            now,
            freshness,
            require_nonce,
        ),
{
}

/// A path is asked about for the role given, at the second of the check and with its
/// fraction, and weak hashes are admitted only where the caller and the store do.
pub proof fn law_path_question(
    chain: Seq<CertificateView>,
    at: CivilTime,
    now: UtcTime,
    role: CertRole,
    legacy: bool,
    store_legacy: bool,
)
    ensures
        ({
            let q = path_question(chain, at, now, role, legacy, store_legacy);
            &&& q.chain == chain
            &&& q.at == at
            &&& q.role == role
            &&& q.positive_fraction <==> now.nanos != 0
            &&& q.legacy <==> legacy && store_legacy
        }),
        is_second_of(at, now) ==> at.valid() && at.epoch_seconds() == now.seconds,
        after_path(Ok(())) is Ok,
        forall|e: TrustError| #[trigger] after_path(Err(e)) is Err,
{
}

/// A path can be asked about from the start of 1970 up to the end of the year 9999.
pub proof fn law_path_times(now: UtcTime)
    ensures
        path_time_fault(now) is None <==> 0 <= now.seconds && now.seconds <= 253_402_300_799,
{
}

/// A store holds a path to be valid for a role, at the second of a check.
pub open spec fn holds_path<P: Fn(&TrustQuery) -> Result<(), TrustError>>(
    store: TrustStore<P>,
    chain: Seq<CertificateView>,
    role: CertRole,
    now: UtcTime,
    legacy: bool,
) -> bool {
    exists|q: PathQueryView, verdict: Result<(), TrustError>|
        {
            &&& #[trigger] store.answers(TrustQueryView::Path(q), verdict)
            &&& verdict is Ok
            &&& q.chain == chain
            &&& q.role == role
            &&& q.at.valid() && q.at.epoch_seconds() == now.seconds
            &&& q.positive_fraction <==> now.nanos != 0
            &&& q.legacy <==> legacy && store.policy.legacy()
        }
}

/// A path passes only where the store holds it to be valid.
pub proof fn law_path_passes<P: Fn(&TrustQuery) -> Result<(), TrustError>>(
    store: TrustStore<P>,
    chain: Seq<CertificateView>,
    now: UtcTime,
    role: CertRole,
    legacy: bool,
    r: Result<(), LtvError>,
)
    requires
        path_result(store, chain, now, role, legacy, r),
        r is Ok,
    ensures
        holds_path(store, chain, role, now, legacy),
{
    let (at, verdict) = choose|at: CivilTime, verdict: Result<(), TrustError>| #[trigger]
        is_second_of(at, now) && #[trigger] store.answers(
            TrustQueryView::Path(
                path_question(chain, at, now, role, legacy, store.policy.legacy()),
            ),
            verdict,
        ) && r == after_path(verdict);
    let q = path_question(chain, at, now, role, legacy, store.policy.legacy());
    assert(store.answers(TrustQueryView::Path(q), verdict));
}

/// With a trust store an outcome is reached only where the store holds the path of the
/// issuer to be valid and, where another than the issuer answers, its path and its
/// names too; and the outcome is that of the signed evidence.
#[verifier::rlimit(30)]
pub proof fn law_trusted_outcome<P: Fn(&TrustQuery) -> Result<(), TrustError>>(
    response: Seq<u8>,
    cert: CertificateView,
    issuer: CertificateView,
    nonce: Option<Seq<u8>>,
    now: UtcTime,
    legacy: bool,
    freshness: OcspFreshness,
    chain: Seq<CertificateView>,
    store: TrustStore<P>,
    require_nonce: bool,
    outcome: OcspCheckOutcome,
)
    requires
        path_checked(
            response,
            cert,
            issuer,
            nonce,
            now,
            legacy,
            freshness,
            chain,
            store,
            require_nonce,
            Ok(outcome),
        ),
    ensures
        holds_path(store, chain, CertRole::IntermediateCa, now, legacy),
        signed_evidence(response, issuer, nonce, legacy, require_nonce) matches Ok((
            parsed,
            responder,
        )) && {
            &&& exists|check: ResponderRevocationCheck| #[trigger]
                evidence_outcome(
                    parsed,
                    responder,
                    check,
                    cert,
                    issuer,
                    nonce,
                    now,
                    freshness,
                    require_nonce,
                ) == Ok::<OutcomeView, LtvError>(outcome@)
            &&& !(responder.subject == issuer.subject && responder.spki == issuer.spki) ==> {
                &&& holds_path(
                    store,
                    seq![responder] + chain,
                    CertRole::OcspResponder,
                    now,
                    legacy,
                )
                &&& exists|verdict: Result<(), TrustError>| #[trigger]
                    store.answers(TrustQueryView::Names { issuer, subject: responder }, verdict)
                        && verdict is Ok
            }
        },
{
    let (parsed, responder) = signed_evidence(
        response,
        issuer,
        nonce,
        legacy,
        require_nonce,
    )->Ok_0;
    let (a, n, b) = choose|
        a: Result<(), LtvError>,
        n: Result<(), TrustError>,
        b: Result<(), LtvError>,
    |
        {
            &&& #[trigger] path_result(store, chain, now, CertRole::IntermediateCa, legacy, a)
            &&& (a is Ok && !same_identity(responder, issuer)) ==> store.answers(
                TrustQueryView::Names { issuer, subject: responder },
                n,
            ) && (responder_trust(
                responder,
                issuer,
                parsed.responder_id,
                legacy,
                now,
                n,
            ) is Ok ==> path_result(
                store,
                seq![responder] + chain,
                now,
                CertRole::OcspResponder,
                legacy,
                b,
            ))
            &&& agrees(
                Ok(outcome),
                #[trigger] path_outcome(
                    parsed,
                    responder,
                    cert,
                    issuer,
                    nonce,
                    now,
                    legacy,
                    freshness,
                    require_nonce,
                    a,
                    n,
                    b,
                ),
            )
        };
    law_path_is_needed(
        parsed,
        responder,
        cert,
        issuer,
        nonce,
        now,
        legacy,
        freshness,
        require_nonce,
        a,
        n,
        b,
    );
    law_path_passes(store, chain, now, CertRole::IntermediateCa, legacy, a);
    let check = responder_trust(
        responder,
        issuer,
        parsed.responder_id,
        legacy,
        now,
        n,
    )->Ok_0;
    assert(evidence_outcome(
        parsed,
        responder,
        check,
        cert,
        issuer,
        nonce,
        now,
        freshness,
        require_nonce,
    ) == Ok::<OutcomeView, LtvError>(outcome@));
    if !same_identity(responder, issuer) {
        law_path_passes(
            store,
            seq![responder] + chain,
            now,
            CertRole::OcspResponder,
            legacy,
            b,
        );
        assert(store.answers(TrustQueryView::Names { issuer, subject: responder }, n));
    }
}

/// An outcome without a path comes from the issuer: it signed the evidence, is valid at
/// the time and is the one that the response names.
pub proof fn law_issuer_may_answer(
    response: Seq<u8>,
    cert: CertificateView,
    issuer: CertificateView,
    nonce: Option<Seq<u8>>,
    now: UtcTime,
    legacy: bool,
    freshness: OcspFreshness,
    require_nonce: bool,
    outcome: OutcomeView,
)
    requires
        issuer_only_outcome(
            response,
            cert,
            issuer,
            nonce,
            now,
            legacy,
            freshness,
            require_nonce,
        ) == Ok::<OutcomeView, LtvError>(outcome),
    ensures
        signed_evidence(response, issuer, nonce, legacy, require_nonce) matches Ok((
            parsed,
            responder,
        )) && {
            &&& responder.subject == issuer.subject && responder.spki == issuer.spki
            &&& responder.not_before * 1_000_000_000 <= now.instant()
            &&& now.instant() <= responder.not_after * 1_000_000_000
            &&& responder_matches(responder, parsed.responder_id) is Ok
            &&& evidence_outcome(
                parsed,
                responder,
                ResponderRevocationCheck::NotRequired,
                cert,
                issuer,
                nonce,
                now,
                freshness,
                require_nonce,
            ) == Ok::<OutcomeView, LtvError>(outcome)
        },
{
}

/// A status is that of an outcome which leaves no responder to be checked.
pub proof fn law_issuer_status(
    response: Seq<u8>,
    cert: CertificateView,
    issuer: CertificateView,
    nonce: Option<Seq<u8>>,
    now: UtcTime,
    legacy: bool,
    freshness: OcspFreshness,
    status: ValidationStatus,
)
    ensures
        issuer_only_status(response, cert, issuer, nonce, now, legacy, freshness) == Ok::<
            ValidationStatus,
            LtvError,
        >(status) <==> (issuer_only_outcome(
            response,
            cert,
            issuer,
            nonce,
            now,
            legacy,
            freshness,
            false,
        ) matches Ok(outcome) && outcome.status == status && outcome.delegated_responder is None),
{
}

/// With a path too, the responder must be trusted.
pub proof fn law_path_responder_is_trusted(
    parsed: BasicResponseView,
    responder: CertificateView,
    cert: CertificateView,
    issuer: CertificateView,
    nonce: Option<Seq<u8>>,
    now: UtcTime,
    legacy: bool,
    freshness: OcspFreshness,
    require_nonce: bool,
    issuer_path: Result<(), LtvError>,
    names: Result<(), TrustError>,
    responder_path: Result<(), LtvError>,
)
    requires
        path_outcome(
            parsed,
            responder,
            cert,
            issuer,
            nonce,
            now,
            legacy,
            freshness,
            require_nonce,
            issuer_path,
            names,
            responder_path,
        ) is Ok,
    ensures
        responder_trust(responder, issuer, parsed.responder_id, legacy, now, names) is Ok,
{
}

} // verus!
