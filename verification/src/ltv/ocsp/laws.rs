//! What the answers of an OCSP responder mean in terms of the bytes that are written.

use vstd::prelude::*;

#[allow(unused_imports)]
use crate::asn1::laws::{
    flag_element, law_extension_list, law_extension_read_back, law_extensions_in_order,
    law_first_tagged_value,
    lemma_elements, lemma_short,
};
#[allow(unused_imports)]
use crate::asn1::{
    algorithm_id_of, extensions_of, oid_valid, whole_arcs, AlgorithmIdView, ExtensionView,
};
#[allow(unused_imports)]
use crate::bytes::without_leading_zeros;
#[allow(unused_imports)]
use crate::der_utils::{law_tlv_round_trip, tagged_value, tlv, tlv_bytes};
#[allow(unused_imports)]
use crate::error::LtvError;
#[allow(unused_imports)]
use crate::ltv::ocsp::check::status_at;
#[allow(unused_imports)]
use crate::ltv::ocsp::request::OCSP_NONCE_OID;
#[allow(unused_imports)]
use crate::ltv::ocsp::response::{
    after_version, basic_response, cert_id_fields, cert_status, certificate_list,
    embedded_certificates, extension_nonce, law_extensions, next_update, nonce_value, ocsp_extensions,
    ocsp_field, ocsp_response, responder_id, response_bytes, response_data, response_nonce,
    response_status, revocation_reason, single_extensions, single_response, single_responses,
    single_times, BasicResponseView, CertStatus, ResponderIdView, ResponseDataView,
    SingleResponseView, OCSP_BASIC_RESPONSE_OID,
};
#[allow(unused_imports)]
use crate::ltv::status::{reason_of_code, RevocationReason, RevocationSource, ValidationStatus};
#[allow(unused_imports)]
use crate::time::{generalized_instant, UtcTime};

verus! {

/// Elements that were written are read back as fields, alone and before others.
pub proof fn lemma_written()
    ensures
        forall|tag: u8, body: Seq<u8>, after: Seq<u8>, context: &'static str|
            body.len() <= u32::MAX ==> #[trigger] ocsp_field(tlv_bytes(tag, body) + after, context)
                == Ok::<(u8, Seq<u8>, Seq<u8>), LtvError>((tag, body, after)),
        forall|tag: u8, body: Seq<u8>, context: &'static str|
            body.len() <= u32::MAX ==> #[trigger] ocsp_field(tlv_bytes(tag, body), context) == Ok::<
                (u8, Seq<u8>, Seq<u8>),
                LtvError,
            >((tag, body, Seq::<u8>::empty())),
        forall|tag: u8, body: Seq<u8>|
            (#[trigger] tlv_bytes(tag, body)).len() > body.len() && tlv_bytes(tag, body)[0] == tag,
        forall|tag: u8, body: Seq<u8>, after: Seq<u8>|
            (#[trigger] (tlv_bytes(tag, body) + after))[0] == tag,
{
    reveal(ocsp_field);
    assert forall|tag: u8, body: Seq<u8>, after: Seq<u8>, context: &'static str|
        body.len() <= u32::MAX implies #[trigger] ocsp_field(tlv_bytes(tag, body) + after, context)
        == Ok::<(u8, Seq<u8>, Seq<u8>), LtvError>((tag, body, after)) by {
        law_tlv_round_trip(tag, body, after);
    }
    assert forall|tag: u8, body: Seq<u8>, context: &'static str|
        body.len() <= u32::MAX implies #[trigger] ocsp_field(tlv_bytes(tag, body), context) == Ok::<
        (u8, Seq<u8>, Seq<u8>),
        LtvError,
    >((tag, body, Seq::<u8>::empty())) by {
        law_tlv_round_trip(tag, body, Seq::empty());
        assert(tlv_bytes(tag, body) + Seq::<u8>::empty() =~= tlv_bytes(tag, body));
    }
}

/// A responder identifier that is written is read back, whatever follows it: a key
/// hash as it stands in its OCTET STRING, and a Name as it stands in its tag.
pub proof fn law_responder_id_read_back(hash: Seq<u8>, name: Seq<u8>, rest: Seq<u8>)
    requires
        tlv_bytes(0x04, hash).len() <= u32::MAX,
        name.len() <= u32::MAX,
    ensures
        responder_id(tlv_bytes(0xA2, tlv_bytes(0x04, hash)) + rest) == Ok::<
            (ResponderIdView, Seq<u8>),
            LtvError,
        >((ResponderIdView::ByKeyHash(hash), rest)),
        responder_id(tlv_bytes(0xA1, name) + rest) == Ok::<(ResponderIdView, Seq<u8>), LtvError>(
            (ResponderIdView::ByName(name), rest),
        ),
{
    lemma_written();
}

/// What is reported of a revoked certificate is the time and the reason that the
/// answer gives, from that time on; before it the certificate is valid.
pub proof fn law_revocation_is_reported(t: UtcTime, c: RevocationReason, now: UtcTime)
    ensures
        t.instant() <= now.instant() ==> status_at(
            CertStatus::Revoked { revocation_time: t, reason: c },
            now,
        ) == (ValidationStatus::Revoked {
            source: RevocationSource::Ocsp,
            reason: c,
            revocation_time: t,
        }),
        t.instant() > now.instant() ==> status_at(
            CertStatus::Revoked { revocation_time: t, reason: c },
            now,
        ) == (ValidationStatus::Valid { source: RevocationSource::Ocsp, checked_at: now }),
        status_at(CertStatus::Good, now) == (ValidationStatus::Valid {
            source: RevocationSource::Ocsp,
            checked_at: now,
        }),
        status_at(CertStatus::Unknown, now) is Unknown,
{
}

/// Each reason has its own number; the numbers without a reason say nothing of it.
pub proof fn law_reason_numbers(code: u8)
    ensures
        reason_of_code(code) is KeyCompromise <==> code == 1,
        reason_of_code(code) is CaCompromise <==> code == 2,
        reason_of_code(code) is AffiliationChanged <==> code == 3,
        reason_of_code(code) is Superseded <==> code == 4,
        reason_of_code(code) is CessationOfOperation <==> code == 5,
        reason_of_code(code) is CertificateHold <==> code == 6,
        reason_of_code(code) is RemoveFromCrl <==> code == 8,
        reason_of_code(code) is PrivilegeWithdrawn <==> code == 9,
        reason_of_code(code) is AaCompromise <==> code == 10,
        reason_of_code(code) is Unspecified <==> code == 0 || code == 7 || code > 10,
{
}

/// A revocation as it is written: its time, and its reason where one is given.
pub open spec fn revoked_bytes(time: Seq<u8>, reason: Option<u8>) -> Seq<u8> {
    tlv_bytes(0x18, time) + (match reason {
        Some(code) => tlv_bytes(0xA0, tlv_bytes(0x0A, seq![code])),
        None => Seq::empty(),
    })
}

/// The status of a certificate is read off its tag; of a revocation, the time and the
/// reason that were written, and no particular one where none was.
pub proof fn law_certificate_status_read_back(
    body: Seq<u8>,
    time: Seq<u8>,
    t: UtcTime,
    reason: Option<u8>,
)
    requires
        time.len() <= 0x100,
        generalized_instant(time) == Some(t),
    ensures
        cert_status(0x80, body) == Ok::<CertStatus, LtvError>(CertStatus::Good),
        cert_status(0x82, body) == Ok::<CertStatus, LtvError>(CertStatus::Unknown),
        cert_status(0xA1, revoked_bytes(time, reason)) == Ok::<CertStatus, LtvError>(
            CertStatus::Revoked {
                revocation_time: t,
                reason: match reason {
                    Some(code) => reason_of_code(code),
                    None => RevocationReason::Unspecified,
                },
            },
        ),
        forall|tag: u8|
            tag != 0x80 && tag != 0x82 && tag != 0xA1 ==> #[trigger] cert_status(tag, body) is Err,
{
    lemma_written();
    lemma_short();
    lemma_elements();
    match reason {
        Some(code) => {
            let element = tlv_bytes(0x0A, seq![code]);
            assert(tagged_value(element, 0x0A) == Some(seq![code]));
            assert(revocation_reason(tlv_bytes(0xA0, element)) == Ok::<RevocationReason, LtvError>(
                reason_of_code(code),
            ));
        },
        None => {},
    }
}

/// The identifier of a certificate as an answer writes it.
pub open spec fn answer_id_bytes(
    oid: Seq<u8>,
    parameters: Seq<u8>,
    name_hash: Seq<u8>,
    key_hash: Seq<u8>,
    serial: Seq<u8>,
) -> Seq<u8> {
    tlv_bytes(0x30, tlv_bytes(0x06, oid) + parameters) + (tlv_bytes(0x04, name_hash) + (tlv_bytes(
        0x04,
        key_hash,
    ) + tlv_bytes(0x02, serial)))
}

/// The hash algorithm, the hashes and the serial number of an answer are those that
/// were written, each in its place.
pub proof fn law_answer_id_read_back(
    oid: Seq<u8>,
    parameters: Seq<u8>,
    name_hash: Seq<u8>,
    key_hash: Seq<u8>,
    serial: Seq<u8>,
)
    requires
        oid.len() <= 0x1000,
        parameters.len() <= 0x1000,
        name_hash.len() <= 0x1000,
        key_hash.len() <= 0x1000,
        serial.len() <= 0x1000,
    ensures
        cert_id_fields(answer_id_bytes(oid, parameters, name_hash, key_hash, serial)) == Ok::<
            (Seq<u8>, Seq<u8>, Seq<u8>, Seq<u8>),
            LtvError,
        >((oid, name_hash, key_hash, without_leading_zeros(serial))),
        answer_id_bytes(oid, parameters, name_hash, key_hash, serial).len() <= 0x6000,
{
    lemma_written();
    lemma_short();
}

/// The times of an answer as they are written.
pub open spec fn times_bytes(this_update: Seq<u8>, next_update: Option<Seq<u8>>) -> Seq<u8> {
    tlv_bytes(0x18, this_update) + (match next_update {
        Some(next) => tlv_bytes(0xA0, tlv_bytes(0x18, next)),
        None => Seq::empty(),
    })
}

/// The time of an answer and the time of the next are those that were written.
pub proof fn law_times_read_back(this_update: Seq<u8>, next_update: Option<Seq<u8>>)
    requires
        this_update.len() <= 0x100,
        generalized_instant(this_update) is Some,
        next_update matches Some(n) ==> n.len() <= 0x100 && generalized_instant(n) is Some,
    ensures
        single_times(times_bytes(this_update, next_update)) == Ok::<
            (UtcTime, Option<UtcTime>, Seq<u8>),
            LtvError,
        >(
            (
                generalized_instant(this_update)->0,
                match next_update {
                    Some(n) => generalized_instant(n),
                    None => None,
                },
                Seq::<u8>::empty(),
            ),
        ),
        times_bytes(this_update, next_update).len() <= 0x300,
{
    lemma_written();
    lemma_short();
    match next_update {
        Some(n) => {},
        None => {
            assert(times_bytes(this_update, next_update) =~= tlv_bytes(0x18, this_update));
        },
    }
}

/// An answer is what was written of it: the certificate that it is about, its status
/// and its times.
pub proof fn law_answer_read_back(
    oid: Seq<u8>,
    parameters: Seq<u8>,
    name_hash: Seq<u8>,
    key_hash: Seq<u8>,
    serial: Seq<u8>,
    tag: u8,
    body: Seq<u8>,
    status: CertStatus,
    this_update: Seq<u8>,
    next_update: Option<Seq<u8>>,
)
    requires
        oid.len() <= 0x1000,
        parameters.len() <= 0x1000,
        name_hash.len() <= 0x1000,
        key_hash.len() <= 0x1000,
        serial.len() <= 0x1000,
        body.len() <= 0x1000,
        cert_status(tag, body) == Ok::<CertStatus, LtvError>(status),
        this_update.len() <= 0x100,
        generalized_instant(this_update) is Some,
        next_update matches Some(n) ==> n.len() <= 0x100 && generalized_instant(n) is Some,
    ensures
        single_response(
            tlv_bytes(0x30, answer_id_bytes(oid, parameters, name_hash, key_hash, serial)) + (
            tlv_bytes(tag, body) + times_bytes(this_update, next_update)),
        ) == Ok::<SingleResponseView, LtvError>(
            SingleResponseView {
                hash_algorithm_oid: oid,
                issuer_name_hash: name_hash,
                issuer_key_hash: key_hash,
                serial_number: without_leading_zeros(serial),
                cert_status: status,
                this_update: generalized_instant(this_update)->0,
                next_update: match next_update {
                    Some(n) => generalized_instant(n),
                    None => None,
                },
            },
        ),
{
    law_answer_id_read_back(oid, parameters, name_hash, key_hash, serial);
    law_times_read_back(this_update, next_update);
    let id = answer_id_bytes(oid, parameters, name_hash, key_hash, serial);
    let times = times_bytes(this_update, next_update);
    lemma_two_fields(id, tag, body, times);
}

proof fn lemma_two_fields(id: Seq<u8>, tag: u8, body: Seq<u8>, after: Seq<u8>)
    requires
        id.len() <= u32::MAX,
        body.len() <= u32::MAX,
    ensures
        ocsp_field(tlv_bytes(0x30, id) + (tlv_bytes(tag, body) + after), "CertID") == Ok::<
            (u8, Seq<u8>, Seq<u8>),
            LtvError,
        >((0x30, id, tlv_bytes(tag, body) + after)),
        ocsp_field(tlv_bytes(tag, body) + after, "certStatus") == Ok::<
            (u8, Seq<u8>, Seq<u8>),
            LtvError,
        >((tag, body, after)),
{
    lemma_written();
}

/// Answers are read one after the other: the first, and then the rest.
pub proof fn law_answers_in_order(first: Seq<u8>, rest: Seq<u8>, found: Seq<SingleResponseView>)
    requires
        first.len() <= u32::MAX,
    ensures
        single_responses(tlv_bytes(0x30, first) + rest, found) == (match single_response(first) {
            Err(e) => Err(e),
            Ok(r) => single_responses(rest, found.push(r)),
        }),
        single_responses(Seq::empty(), found) == Ok::<Seq<SingleResponseView>, LtvError>(found),
{
    lemma_written();
}

/// Certificates as they are written one after the other.
pub open spec fn certificates_bytes(list: Seq<Seq<u8>>) -> Seq<u8>
    decreases list.len(),
{
    if list.len() == 0 {
        Seq::empty()
    } else {
        tlv_bytes(0x30, list[0]) + certificates_bytes(list.skip(1))
    }
}

proof fn lemma_certificates(list: Seq<Seq<u8>>, found: Seq<Seq<u8>>)
    requires
        forall|i: int| 0 <= i < list.len() ==> (#[trigger] list[i]).len() <= u32::MAX,
    ensures
        certificate_list(certificates_bytes(list), found) matches Ok(all) && all.len()
            == found.len() + list.len() && (forall|i: int|
            0 <= i < found.len() ==> #[trigger] all[i] == found[i]) && (forall|i: int|
            0 <= i < list.len() ==> all[found.len() + i] == tlv_bytes(0x30, #[trigger] list[i])),
    decreases list.len(),
{
    lemma_written();
    if list.len() > 0 {
        let first = tlv_bytes(0x30, list[0]);
        let more = list.skip(1);
        let rest = certificates_bytes(more);
        assert forall|i: int| 0 <= i < more.len() implies (#[trigger] more[i]).len()
            <= u32::MAX by {
            assert(more[i] == list[i + 1]);
        }
        assert((first + rest).take((first + rest).len() - rest.len()) =~= first);
        lemma_certificates(more, found.push(first));
        let all = certificate_list(certificates_bytes(list), found)->Ok_0;
        assert forall|i: int| 0 <= i < found.len() implies #[trigger] all[i] == found[i] by {
            assert(all[i] == found.push(first)[i]);
        }
        assert forall|i: int| 0 <= i < list.len() implies all[found.len() + i] == tlv_bytes(
            0x30,
            #[trigger] list[i],
        ) by {
            if i > 0 {
                assert(more[i - 1] == list[i]);
            } else {
                assert(all[found.len() as int] == found.push(first)[found.len() as int]);
            }
        }
    }
}

/// The certificates that come with a response are those that were written, each with
/// its tag and its length, in their order.
pub proof fn law_embedded_certificates_read_back(list: Seq<Seq<u8>>)
    requires
        forall|i: int| 0 <= i < list.len() ==> (#[trigger] list[i]).len() <= u32::MAX,
        certificates_bytes(list).len() <= 0x1000_0000,
    ensures
        embedded_certificates(
            tlv_bytes(0xA0, tlv_bytes(0x30, certificates_bytes(list))),
        ) matches Ok(all) && all.len() == list.len() && forall|i: int|
            0 <= i < list.len() ==> all[i] == tlv_bytes(0x30, #[trigger] list[i]),
        embedded_certificates(Seq::empty()) == Ok::<Seq<Seq<u8>>, LtvError>(Seq::empty()),
{
    lemma_written();
    lemma_short();
    lemma_certificates(list, Seq::empty());
    let all = certificate_list(certificates_bytes(list), Seq::empty())->Ok_0;
    assert forall|i: int| 0 <= i < list.len() implies all[i] == tlv_bytes(
        0x30,
        #[trigger] list[i],
    ) by {
        assert(all[Seq::<Seq<u8>>::empty().len() + i] == tlv_bytes(0x30, list[i]));
    }
}

/// A nonce is what stands in the OCTET STRING of its extension, and the value of the
/// extension where that is none.
pub proof fn law_nonce_read_back(nonce: Seq<u8>, tag: u8, other: Seq<u8>)
    requires
        nonce.len() <= u32::MAX,
        other.len() <= u32::MAX,
    ensures
        nonce_value(tlv_bytes(0x04, nonce)) == nonce,
        tag != 0x04 ==> nonce_value(tlv_bytes(tag, other)) == tlv_bytes(tag, other),
{
    lemma_elements();
}

/// Extensions of a response are accepted exactly where no identifier comes twice and
/// none but the nonce is critical; and the nonce is that of the nonce extension.
pub proof fn law_response_extensions(
    list: Seq<ExtensionView>,
    i: nat,
    seen: Seq<Seq<u8>>,
    nonce: Option<Seq<u8>>,
)
    requires
        i <= list.len(),
        forall|k: int|
            i <= k < list.len() ==> !seen.contains((#[trigger] list[k]).extn_id) && (
            list[k].extn_id != OCSP_NONCE_OID@ ==> !list[k].critical),
        forall|j: int, k: int|
            i <= j < k < list.len() ==> (#[trigger] list[j]).extn_id != (
            #[trigger] list[k]).extn_id,
    ensures
        extension_nonce(list, true, i, seen, nonce) is Ok,
        forall|k: int|
            i <= k < list.len() && (#[trigger] list[k]).extn_id == OCSP_NONCE_OID@
                ==> extension_nonce(list, true, i, seen, nonce) == Ok::<
                Option<Seq<u8>>,
                LtvError,
            >(Some(nonce_value(list[k].extn_value))),
        (forall|k: int|
            i <= k < list.len() ==> (#[trigger] list[k]).extn_id != OCSP_NONCE_OID@)
            ==> extension_nonce(list, true, i, seen, nonce) == Ok::<Option<Seq<u8>>, LtvError>(
            nonce,
        ),
        (forall|k: int|
            i <= k < list.len() ==> (#[trigger] list[k]).extn_id != OCSP_NONCE_OID@)
            ==> extension_nonce(list, false, i, seen, nonce) == Ok::<Option<Seq<u8>>, LtvError>(
            nonce,
        ),
    decreases list.len() - i,
{
    if i < list.len() {
        let e = list[i as int];
        let more = seen.push(e.extn_id);
        assert forall|k: int| i + 1 <= k < list.len() implies !more.contains(
            (#[trigger] list[k]).extn_id,
        ) && (list[k].extn_id != OCSP_NONCE_OID@ ==> !list[k].critical) by {
            assert(list[i as int].extn_id != list[k].extn_id);
            if more.contains(list[k].extn_id) {
                let w = choose|w: int| 0 <= w < more.len() && more[w] == list[k].extn_id;
                if w < seen.len() {
                    assert(seen[w] == list[k].extn_id);
                    assert(seen.contains(list[k].extn_id));
                }
            }
        }
        assert(!seen.contains(e.extn_id));
        let next = if e.extn_id == OCSP_NONCE_OID@ {
            Some(nonce_value(e.extn_value))
        } else {
            nonce
        };
        law_response_extensions(list, i + 1, more, next);
        if e.extn_id == OCSP_NONCE_OID@ {
            assert forall|k: int| i + 1 <= k < list.len() implies (#[trigger] list[k]).extn_id
                != OCSP_NONCE_OID@ by {
                assert(list[i as int].extn_id != list[k].extn_id);
            }
        }
    }
}

/// What a response says is what was written: who answers, when, the answers, and the
/// nonce where there is one.
pub proof fn law_response_data_read_back(
    id: Seq<u8>,
    responder: ResponderIdView,
    produced_at: Seq<u8>,
    answers: Seq<u8>,
    responses: Seq<SingleResponseView>,
    nonce: Option<Seq<u8>>,
    version: Option<Seq<u8>>,
)
    requires
        version matches Some(v) ==> v.len() <= 0x100,
        id.len() > 0 && id[0] != 0xA0,
        forall|rest: Seq<u8>| #[trigger]
            responder_id(id + rest) == Ok::<(ResponderIdView, Seq<u8>), LtvError>((responder, rest)),
        produced_at.len() <= 0x100,
        generalized_instant(produced_at) is Some,
        answers.len() <= 0x1000_0000,
        single_responses(answers, Seq::empty()) == Ok::<Seq<SingleResponseView>, LtvError>(
            responses,
        ),
        nonce matches Some(n) ==> n.len() <= 0x1000,
    ensures
        response_data(
            (match version {
                Some(v) => tlv_bytes(0xA0, v),
                None => Seq::empty(),
            }) + (id + (tlv_bytes(0x18, produced_at) + (tlv_bytes(0x30, answers)
                + nonce_bytes(nonce)))),
        ) == Ok::<ResponseDataView, LtvError>(
            ResponseDataView {
                responder_id: responder,
                produced_at: generalized_instant(produced_at)->0,
                responses,
                nonce,
            },
        ),
{
    let s4 = nonce_bytes(nonce);
    let s3 = tlv_bytes(0x30, answers) + s4;
    let s2 = tlv_bytes(0x18, produced_at) + s3;
    let s1 = id + s2;
    lemma_nonce_written(nonce);
    lemma_data_fields(version, s1, produced_at, answers, s4);
    assert(responder_id(id + s2) == Ok::<(ResponderIdView, Seq<u8>), LtvError>((responder, s2)));
}

proof fn lemma_data_fields(
    version: Option<Seq<u8>>,
    s1: Seq<u8>,
    produced_at: Seq<u8>,
    answers: Seq<u8>,
    s4: Seq<u8>,
)
    requires
        version matches Some(v) ==> v.len() <= 0x100,
        s1.len() > 0 && s1[0] != 0xA0,
        produced_at.len() <= 0x100,
        answers.len() <= 0x1000_0000,
    ensures
        after_version(
            (match version {
                Some(v) => tlv_bytes(0xA0, v),
                None => Seq::empty(),
            }) + s1,
        ) == Ok::<Seq<u8>, LtvError>(s1),
        ocsp_field(tlv_bytes(0x18, produced_at) + (tlv_bytes(0x30, answers) + s4), "producedAt")
            == Ok::<(u8, Seq<u8>, Seq<u8>), LtvError>(
            (0x18, produced_at, tlv_bytes(0x30, answers) + s4),
        ),
        ocsp_field(tlv_bytes(0x30, answers) + s4, "responses SEQUENCE") == Ok::<
            (u8, Seq<u8>, Seq<u8>),
            LtvError,
        >((0x30, answers, s4)),
{
    lemma_written();
    if version is None {
        assert((match version {
            Some(v) => tlv_bytes(0xA0, v),
            None => Seq::empty(),
        }) + s1 =~= s1);
    }
}

/// The extensions of a response with a nonce as they are written.
pub open spec fn nonce_bytes(nonce: Option<Seq<u8>>) -> Seq<u8> {
    match nonce {
        Some(n) => tlv_bytes(
            0xA1,
            tlv_bytes(
                0x30,
                tlv_bytes(
                    0x30,
                    tlv_bytes(0x06, OCSP_NONCE_OID@) + (flag_element(false) + tlv_bytes(
                        0x04,
                        tlv_bytes(0x04, n),
                    )),
                ),
            ),
        ),
        None => Seq::empty(),
    }
}

proof fn lemma_nonce_written(nonce: Option<Seq<u8>>)
    requires
        nonce matches Some(n) ==> n.len() <= 0x1000,
    ensures
        response_nonce(nonce_bytes(nonce)) == Ok::<Option<Seq<u8>>, LtvError>(nonce),
{
    if let Some(n) = nonce {
        let value = tlv_bytes(0x04, n);
        let body = tlv_bytes(0x06, OCSP_NONCE_OID@) + (flag_element(false) + tlv_bytes(
            0x04,
            value,
        ));
        let first = tlv_bytes(0x30, body);
        let none = Seq::<u8>::empty();
        let area = tlv_bytes(0x30, first);
        lemma_short();
        assert(OCSP_NONCE_OID@.len() == 9);
        assert(flag_element(false).len() == 0);
        assert(body.len() <= 0x2000);
        assert(area.len() <= 0x3000);
        assert(oid_valid(OCSP_NONCE_OID@)) by {
            reveal(oid_valid);
            reveal_with_fuel(whole_arcs, 10);
        }
        law_extension_read_back(OCSP_NONCE_OID@, false, value);
        law_extensions_in_order(body, none, Seq::empty());
        assert(first + none =~= first);
        law_extension_list(first);
        let e = ExtensionView { extn_id: OCSP_NONCE_OID@, critical: false, extn_value: value };
        let list = Seq::<ExtensionView>::empty().push(e);
        law_extensions_in_order(body, none, list);
        assert(extensions_of(area) == Some(list));
        law_response_extensions(list, 0, Seq::empty(), None);
        assert(list[0].extn_id == OCSP_NONCE_OID@);
        law_nonce_read_back(n, 0x04, n);
        assert(ocsp_extensions(area, true) == Ok::<Option<Seq<u8>>, LtvError>(Some(n)));
        assert(nonce_bytes(nonce) == tlv_bytes(0xA1, area));
        lemma_alone(0xA1, area);
    }
}

proof fn lemma_alone(tag: u8, body: Seq<u8>)
    requires
        body.len() <= u32::MAX,
    ensures
        tlv_bytes(tag, body).len() > 0,
        forall|context: &'static str| #[trigger]
            ocsp_field(tlv_bytes(tag, body), context) == Ok::<(u8, Seq<u8>, Seq<u8>), LtvError>(
                (tag, body, Seq::<u8>::empty()),
            ),
{
    lemma_written();
}

/// A signed response as it is written: the data, the algorithm, the signature behind
/// the octet that counts its unused bits, and what follows.
pub open spec fn basic_bytes(
    data: Seq<u8>,
    algorithm: Seq<u8>,
    unused: u8,
    signature: Seq<u8>,
    rest: Seq<u8>,
) -> Seq<u8> {
    tlv_bytes(
        0x30,
        tlv_bytes(0x30, data) + (tlv_bytes(0x30, algorithm) + (tlv_bytes(
            0x03,
            seq![unused] + signature,
        ) + rest)),
    )
}

/// What is taken as signed is the data of the response with its tag and its length,
/// byte for byte; the algorithm, the signature, the certificates and the data are those
/// that were written.
pub proof fn law_signed_response_read_back(
    data: Seq<u8>,
    algorithm: Seq<u8>,
    unused: u8,
    signature: Seq<u8>,
    rest: Seq<u8>,
    id: AlgorithmIdView,
    certs: Seq<Seq<u8>>,
    d: ResponseDataView,
)
    requires
        data.len() <= 0x1000_0000,
        algorithm.len() <= 0x1000,
        signature.len() <= 0x10_0000,
        rest.len() <= 0x1000_0000,
        algorithm_id_of(tlv_bytes(0x30, algorithm)) == Some(id),
        embedded_certificates(rest) == Ok::<Seq<Seq<u8>>, LtvError>(certs),
        response_data(data) == Ok::<ResponseDataView, LtvError>(d),
    ensures
        basic_response(basic_bytes(data, algorithm, unused, signature, rest)) == Ok::<
            BasicResponseView,
            LtvError,
        >(
            BasicResponseView {
                tbs_response_data: tlv_bytes(0x30, data),
                signature_algorithm: id,
                signature_bytes: signature,
                responder_id: d.responder_id,
                produced_at: d.produced_at,
                responses: d.responses,
                nonce: d.nonce,
                embedded_certs_der: certs,
            },
        ),
{
    let bits = seq![unused] + signature;
    let s2 = tlv_bytes(0x03, bits) + rest;
    let s1 = tlv_bytes(0x30, algorithm) + s2;
    let body = tlv_bytes(0x30, data) + s1;
    lemma_signed_fields(data, algorithm, bits, rest);
    assert(body.take(body.len() - s1.len()) =~= tlv_bytes(0x30, data));
    assert(s1.take(s1.len() - s2.len()) =~= tlv_bytes(0x30, algorithm));
    assert(bits.skip(1) =~= signature);
}

proof fn lemma_signed_fields(data: Seq<u8>, algorithm: Seq<u8>, bits: Seq<u8>, rest: Seq<u8>)
    requires
        data.len() <= 0x1000_0000,
        algorithm.len() <= 0x1000,
        bits.len() <= 0x10_0001,
        rest.len() <= 0x1000_0000,
    ensures
        ({
            let s2 = tlv_bytes(0x03, bits) + rest;
            let s1 = tlv_bytes(0x30, algorithm) + s2;
            let body = tlv_bytes(0x30, data) + s1;
            &&& ocsp_field(tlv_bytes(0x30, body), "BasicOCSPResponse") == Ok::<
                (u8, Seq<u8>, Seq<u8>),
                LtvError,
            >((0x30, body, Seq::<u8>::empty()))
            &&& ocsp_field(body, "tbsResponseData") == Ok::<(u8, Seq<u8>, Seq<u8>), LtvError>(
                (0x30, data, s1),
            )
            &&& ocsp_field(s1, "signatureAlgorithm") == Ok::<(u8, Seq<u8>, Seq<u8>), LtvError>(
                (0x30, algorithm, s2),
            )
            &&& ocsp_field(s2, "signature BIT STRING") == Ok::<(u8, Seq<u8>, Seq<u8>), LtvError>(
                (0x03, bits, rest),
            )
        }),
{
    lemma_written();
    lemma_short();
}

/// A response as it is written around a signed response.
pub open spec fn ocsp_bytes(status: u8, response_type: Seq<u8>, basic: Seq<u8>) -> Seq<u8> {
    tlv_bytes(
        0x30,
        tlv_bytes(0x0A, seq![status]) + tlv_bytes(
            0xA0,
            tlv_bytes(0x30, tlv_bytes(0x06, response_type) + tlv_bytes(0x04, basic)),
        ),
    )
}

/// A response is read exactly where its status says that it succeeded and its type is
/// the basic one, and is then the signed response in it; any other status is the one
/// that is reported.
pub proof fn law_response_read_back(status: u8, response_type: Seq<u8>, basic: Seq<u8>)
    requires
        response_type.len() <= 0x1000,
        basic.len() <= 0x2000_0000,
    ensures
        ({
            let r = ocsp_response(ocsp_bytes(status, response_type, basic));
            &&& status != 0 ==> r == Err::<BasicResponseView, LtvError>(
                LtvError::OcspResponderStatus(status),
            )
            &&& status == 0 && response_type == OCSP_BASIC_RESPONSE_OID@ ==> r == basic_response(
                basic,
            )
            &&& status == 0 && response_type != OCSP_BASIC_RESPONSE_OID@ ==> r is Err
        }),
        response_status(ocsp_bytes(status, response_type, basic)) == (if status == 0 {
            Ok::<(), LtvError>(())
        } else {
            Err(LtvError::OcspResponderStatus(status))
        }),
        response_status(tlv_bytes(0x30, tlv_bytes(0x0A, seq![status]))) == (if status == 0 {
            Ok::<(), LtvError>(())
        } else {
            Err(LtvError::OcspResponderStatus(status))
        }),
{
    let inner = tlv_bytes(0x06, response_type) + tlv_bytes(0x04, basic);
    lemma_inner_response(response_type, basic);
    lemma_outer_response(status, inner);
    lemma_bare_status(status);
}

proof fn lemma_inner_response(response_type: Seq<u8>, basic: Seq<u8>)
    requires
        response_type.len() <= 0x1000,
        basic.len() <= 0x2000_0000,
    ensures
        ({
            let inner = tlv_bytes(0x06, response_type) + tlv_bytes(0x04, basic);
            &&& ocsp_field(inner, "responseType OID") == Ok::<(u8, Seq<u8>, Seq<u8>), LtvError>(
                (0x06, response_type, tlv_bytes(0x04, basic)),
            )
            &&& ocsp_field(tlv_bytes(0x04, basic), "response OCTET STRING") == Ok::<
                (u8, Seq<u8>, Seq<u8>),
                LtvError,
            >((0x04, basic, Seq::<u8>::empty()))
            &&& inner.len() <= 0x2001_0000
        }),
{
    lemma_written();
    lemma_short();
}

proof fn lemma_outer_response(status: u8, inner: Seq<u8>)
    requires
        inner.len() <= 0x2001_0000,
    ensures
        ({
            let outer = tlv_bytes(0x0A, seq![status]) + tlv_bytes(0xA0, tlv_bytes(0x30, inner));
            &&& ocsp_field(tlv_bytes(0x30, outer), "OCSPResponse outer") == Ok::<
                (u8, Seq<u8>, Seq<u8>),
                LtvError,
            >((0x30, outer, Seq::<u8>::empty()))
            &&& response_bytes(outer) == (if status == 0 {
                Ok::<Seq<u8>, LtvError>(inner)
            } else {
                Err(LtvError::OcspResponderStatus(status))
            })
            &&& response_status(tlv_bytes(0x30, outer)) == (if status == 0 {
                Ok::<(), LtvError>(())
            } else {
                Err(LtvError::OcspResponderStatus(status))
            })
        }),
{
    lemma_written();
    lemma_short();
}

proof fn lemma_bare_status(status: u8)
    ensures
        response_status(tlv_bytes(0x30, tlv_bytes(0x0A, seq![status]))) == (if status == 0 {
            Ok::<(), LtvError>(())
        } else {
            Err(LtvError::OcspResponderStatus(status))
        }),
{
    lemma_written();
    lemma_short();
}

/// The extensions of an answer are checked: they are there in one area behind the
/// times, none is critical or a nonce, and none comes twice.
pub proof fn law_answer_extensions_are_checked(
    oid: Seq<u8>,
    name_hash: Seq<u8>,
    key_hash: Seq<u8>,
    serial: Seq<u8>,
    this_update: Seq<u8>,
    tag: u8,
    area: Seq<u8>,
)
    requires
        oid.len() <= 0x1000,
        name_hash.len() <= 0x1000,
        key_hash.len() <= 0x1000,
        serial.len() <= 0x1000,
        this_update.len() <= 0x100,
        generalized_instant(this_update) is Some,
        tag != 0xA0,
        area.len() <= 0x10_0000,
    ensures
        single_response(
            tlv_bytes(0x30, answer_id_bytes(oid, Seq::empty(), name_hash, key_hash, serial)) + (
            tlv_bytes(0x80, Seq::empty()) + (tlv_bytes(0x18, this_update) + tlv_bytes(tag, area))),
        ) is Ok <==> tag == 0xA1 && ocsp_extensions(area, false) is Ok,
{
    let none = Seq::<u8>::empty();
    let id = answer_id_bytes(oid, none, name_hash, key_hash, serial);
    let times = tlv_bytes(0x18, this_update) + tlv_bytes(tag, area);
    law_answer_id_read_back(oid, none, name_hash, key_hash, serial);
    lemma_two_fields(id, 0x80, none, times);
    lemma_times_and_more(this_update, tag, area);
}

proof fn lemma_times_and_more(this_update: Seq<u8>, tag: u8, area: Seq<u8>)
    requires
        this_update.len() <= 0x100,
        generalized_instant(this_update) is Some,
        tag != 0xA0,
        area.len() <= 0x10_0000,
    ensures
        single_times(tlv_bytes(0x18, this_update) + tlv_bytes(tag, area)) == Ok::<
            (UtcTime, Option<UtcTime>, Seq<u8>),
            LtvError,
        >((generalized_instant(this_update)->0, None, tlv_bytes(tag, area))),
        single_extensions(tlv_bytes(tag, area)) is Ok <==> tag == 0xA1 && ocsp_extensions(
            area,
            false,
        ) is Ok,
{
    lemma_written();
}

/// The extensions of a response are checked: they are there in one area, and what is
/// found in them is the nonce.
pub proof fn law_response_extensions_are_checked(tag: u8, area: Seq<u8>, rest: Seq<u8>)
    requires
        area.len() <= 0x10_0000,
    ensures
        response_nonce(tlv_bytes(tag, area) + rest) is Ok <==> tag == 0xA1 && rest.len() == 0
            && ocsp_extensions(area, true) is Ok,
        response_nonce(tlv_bytes(0xA1, area)) == ocsp_extensions(area, true),
        ocsp_extensions(area, true) is Ok ==> (extensions_of(area) matches Some(list) && list.len()
            > 0),
        ocsp_extensions(area, false) is Ok ==> (extensions_of(area) matches Some(list)
            && list.len() > 0 && forall|k: int|
            0 <= k < list.len() ==> !(#[trigger] list[k]).critical && list[k].extn_id
                != OCSP_NONCE_OID@),
{
    lemma_written();
    if ocsp_extensions(area, false) is Ok {
        let list = extensions_of(area)->0;
        law_extensions(list, false, 0, Seq::empty(), None);
    }
}

/// What is read of a response is what stands in it: a status of success, the basic type,
/// and the signed response in the OCTET STRING behind it.
#[verifier::spinoff_prover]
#[verifier::rlimit(40)]
pub proof fn law_response_is_enveloped(s: Seq<u8>)
    ensures
        ocsp_response(s) matches Ok(parsed) ==> {
            &&& tlv(s) matches Ok((a, outer, _))
            &&& tlv(outer) matches Ok((b, status, r1))
            &&& tlv(r1) matches Ok((c, wrapped, _))
            &&& tlv(wrapped) matches Ok((d, body, _))
            &&& tlv(body) matches Ok((e, oid, r2))
            &&& tlv(r2) matches Ok((f, basic, _))
            &&& a == 0x30 && b == 0x0A && c == 0xA0 && d == 0x30 && e == 0x06 && f == 0x04
            &&& status.len() > 0 && status[0] == 0
            &&& oid == OCSP_BASIC_RESPONSE_OID@
            &&& basic_response(basic) == Ok::<BasicResponseView, LtvError>(parsed)
        },
{
    lemma_fields_are_elements();
}

proof fn lemma_fields_are_elements()
    ensures
        forall|s: Seq<u8>, context: &'static str|
            #[trigger] ocsp_field(s, context) matches Ok((tag, body, rest)) ==> tlv(s) == Ok::<
                (u8, Seq<u8>, Seq<u8>),
                crate::der_utils::DerError,
            >((tag, body, rest)),
{
    reveal(ocsp_field);
}

/// What is taken as signed is a prefix of the signed response: its data, with the tag and
/// the length that stand there; and the data is read from it.
#[verifier::spinoff_prover]
#[verifier::rlimit(40)]
pub proof fn law_signed_data_is_a_prefix(s: Seq<u8>)
    ensures
        basic_response(s) matches Ok(parsed) ==> {
            &&& tlv(s) matches Ok((a, body, _))
            &&& a == 0x30
            &&& tlv(body) matches Ok((b, data, r1))
            &&& b == 0x30
            &&& body == parsed.tbs_response_data + r1
            &&& response_data(data) matches Ok(d)
            &&& d.responses == parsed.responses && d.responder_id == parsed.responder_id && d.nonce
                == parsed.nonce && d.produced_at == parsed.produced_at
            &&& tlv(r1) matches Ok((c, _, r2))
            &&& c == 0x30
            &&& tlv(r2) matches Ok((e, bits, r3))
            &&& e == 0x03 && bits.len() > 0 && parsed.signature_bytes == bits.skip(1)
            &&& embedded_certificates(r3) == Ok::<Seq<Seq<u8>>, LtvError>(
                parsed.embedded_certs_der,
            )
        },
{
    lemma_fields_are_elements();
    if let Ok(parsed) = basic_response(s) {
        let body = ocsp_field(s, "BasicOCSPResponse")->Ok_0.1;
        let r1 = ocsp_field(body, "tbsResponseData")->Ok_0.2;
        crate::der_utils::lemma_tlv_shrinks(body);
        assert(body =~= body.take(body.len() - r1.len()) + r1);
    }
}

/// Only SEQUENCEs are answers and certificates; other elements among them say nothing.
pub proof fn law_other_elements_say_nothing(
    tag: u8,
    body: Seq<u8>,
    rest: Seq<u8>,
    answers: Seq<SingleResponseView>,
    certs: Seq<Seq<u8>>,
)
    requires
        tag != 0x30,
        body.len() <= 0x1000_0000,
    ensures
        single_responses(tlv_bytes(tag, body) + rest, answers) == single_responses(rest, answers),
        certificate_list(tlv_bytes(tag, body) + rest, certs) == certificate_list(rest, certs),
        tag != 0xA0 ==> embedded_certificates(tlv_bytes(tag, body)) == Ok::<
            Seq<Seq<u8>>,
            LtvError,
        >(Seq::empty()),
        embedded_certificates(tlv_bytes(0xA0, tlv_bytes(tag, body))) == Ok::<
            Seq<Seq<u8>>,
            LtvError,
        >(Seq::empty()),
{
    lemma_written();
    lemma_short();
}

/// The time of the next answer is read where there is one: an element of another kind in
/// its place is no time, and without the place nothing is read.
pub proof fn law_next_time(tag: u8, body: Seq<u8>, rest: Seq<u8>)
    requires
        body.len() <= 0x10_0000,
    ensures
        tag != 0x18 ==> next_update(tlv_bytes(0xA0, tlv_bytes(tag, body)) + rest) == Ok::<
            (Option<UtcTime>, Seq<u8>),
            LtvError,
        >((None, rest)),
        tag == 0x18 ==> (next_update(tlv_bytes(0xA0, tlv_bytes(tag, body)) + rest) is Ok
            <==> generalized_instant(body) is Some),
        tag == 0x18 ==> (next_update(tlv_bytes(0xA0, tlv_bytes(tag, body)) + rest) matches Ok((
            t,
            after,
        )) ==> t == generalized_instant(body) && after == rest),
        tag != 0xA0 ==> next_update(tlv_bytes(tag, body) + rest) == Ok::<
            (Option<UtcTime>, Seq<u8>),
            LtvError,
        >((None, tlv_bytes(tag, body) + rest)),
{
    lemma_written();
    lemma_short();
}

/// A reason is read where there is one; anything else in its place gives none.
pub proof fn law_reason_place(tag: u8, body: Seq<u8>)
    requires
        body.len() <= 0x10_0000,
    ensures
        tag != 0xA0 ==> revocation_reason(tlv_bytes(tag, body)) == Ok::<
            RevocationReason,
            LtvError,
        >(RevocationReason::Unspecified),
        tag != 0x0A ==> revocation_reason(tlv_bytes(0xA0, tlv_bytes(tag, body))) == Ok::<
            RevocationReason,
            LtvError,
        >(RevocationReason::Unspecified),
{
    lemma_written();
    lemma_short();
    let none = Seq::<u8>::empty();
    law_first_tagged_value(tag, body, none, 0x0A);
    assert(tlv_bytes(tag, body) + none =~= tlv_bytes(tag, body));
}

} // verus!
