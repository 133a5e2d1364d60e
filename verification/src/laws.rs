//! What it means that a value is what was read: each of its fields is.

use vstd::prelude::*;

#[allow(unused_imports)]
use crate::cert::{Certificate, CertificateView};
#[allow(unused_imports)]
use crate::error::{LtvError, TspError};
#[allow(unused_imports)]
use crate::ltv::ocsp::check::{OcspCheckOutcome, OutcomeView};
#[allow(unused_imports)]
use crate::ltv::ocsp::response::{
    BasicResponseView, ParsedBasicOcspResponse, ResponderId, ResponderIdView,
};
#[allow(unused_imports)]
use crate::net::FetchTarget;
#[allow(unused_imports)]
use crate::trust::PathQuery;
#[allow(unused_imports)]
use crate::tsp::response::{TimeStampResp, TimeStampRespView};
#[allow(unused_imports)]
use crate::tsp::tst_info::{TstInfo, TstInfoView};
#[allow(unused_imports)]
use crate::{agrees, agrees_opt};

verus! {

/// A result agrees with its model exactly where both succeed or both fail, with the same
/// value or the same error.
pub proof fn law_agreement(
    v: Certificate,
    w: CertificateView,
    e: LtvError,
    f: LtvError,
)
    ensures
        agrees(Ok::<Certificate, LtvError>(v), Ok::<CertificateView, LtvError>(w)) <==> v@ == w,
        agrees(Err::<Certificate, LtvError>(e), Err::<CertificateView, LtvError>(f)) <==> e == f,
        !agrees(Ok::<Certificate, LtvError>(v), Err::<CertificateView, LtvError>(f)),
        !agrees(Err::<Certificate, LtvError>(e), Ok::<CertificateView, LtvError>(w)),
        agrees_opt(Some(v), Some(w)) <==> v@ == w,
        !agrees_opt(Some(v), None::<CertificateView>),
        !agrees_opt(None::<Certificate>, Some(w)),
        agrees_opt(None::<Certificate>, None::<CertificateView>),
{
}

/// A TSTInfo that is what was read holds each field under its own name.
pub proof fn law_tst_info_fields(info: TstInfo, model: Result<TstInfoView, TspError>)
    requires
        agrees(Ok(info), model),
    ensures
        model matches Ok(m) && info.hash_algorithm == m.hash_algorithm && info.message_hash@
            == m.message_hash && info.serial_number@ == m.serial_number && info.gen_time_der@
            == m.gen_time_der && info.nonce == m.nonce && (match (info.policy_oid, m.policy_oid) {
            (Some(a), Some(b)) => a@ == b,
            (None, None) => true,
            _ => false,
        }),
{
}

/// A response of an authority that is what was read holds each field under its own name.
pub proof fn law_timestamp_response_fields(
    r: TimeStampResp,
    model: Result<TimeStampRespView, TspError>,
)
    requires
        agrees(Ok(r), model),
    ensures
        model matches Ok(m) && r.status == m.status && (match (r.status_string, m.status_string) {
            (Some(a), Some(b)) => a@ == b,
            (None, None) => true,
            _ => false,
        }) && (match (r.failure_info, m.failure_info) {
            (Some(a), Some(b)) => a@ == b,
            (None, None) => true,
            _ => false,
        }) && (match (r.token_der, m.token_der) {
            (Some(a), Some(b)) => a@ == b,
            (None, None) => true,
            _ => false,
        }),
{
}

/// A response of a responder that is what was read holds each field under its own name,
/// and each answer does.
pub proof fn law_ocsp_response_fields(
    p: ParsedBasicOcspResponse,
    model: Result<BasicResponseView, LtvError>,
)
    requires
        agrees(Ok(p), model),
    ensures
        model matches Ok(m) && {
            &&& p.tbs_response_data@ == m.tbs_response_data
            &&& p.signature_algorithm.oid@ == m.signature_algorithm.oid
            &&& p.signature_bytes@ == m.signature_bytes
            &&& p.produced_at == m.produced_at
            &&& p.embedded_certs_der@.len() == m.embedded_certs_der.len()
            &&& forall|i: int|
                0 <= i < m.embedded_certs_der.len() ==> p.embedded_certs_der@[i]@
                    == #[trigger] m.embedded_certs_der[i]
            &&& match (p.nonce, m.nonce) {
                (Some(a), Some(b)) => a@ == b,
                (None, None) => true,
                _ => false,
            }
            &&& match (p.responder_id, m.responder_id) {
                (ResponderId::ByName(a), ResponderIdView::ByName(b)) => a@ == b,
                (ResponderId::ByKeyHash(a), ResponderIdView::ByKeyHash(b)) => a@ == b,
                _ => false,
            }
            &&& p.responses@.len() == m.responses.len()
            &&& forall|i: int|
                0 <= i < m.responses.len() ==> {
                    let a = p.responses@[i];
                    let b = #[trigger] m.responses[i];
                    &&& a.hash_algorithm_oid@ == b.hash_algorithm_oid
                    &&& a.issuer_name_hash@ == b.issuer_name_hash
                    &&& a.issuer_key_hash@ == b.issuer_key_hash
                    &&& a.serial_number@ == b.serial_number
                    &&& a.cert_status == b.cert_status
                    &&& a.this_update == b.this_update
                    &&& a.next_update == b.next_update
                }
        },
{
}

/// An outcome that is what was concluded holds the status and the responder of it.
pub proof fn law_outcome_fields(o: OcspCheckOutcome, model: Result<OutcomeView, LtvError>)
    requires
        agrees(Ok(o), model),
    ensures
        model matches Ok(m) && o.status == m.status && (match (
            o.delegated_responder,
            m.delegated_responder,
        ) {
            (Some(a), Some(b)) => a@ == b,
            (None, None) => true,
            _ => false,
        }),
{
}

/// A certificate is seen as what it holds, each field under its own name.
pub proof fn law_certificate_is_seen(c: Certificate)
    ensures
        c@.der == c.der@ && c@.tbs == c.tbs@,
        c@.signature_algorithm == c.signature_algorithm@ && c@.tbs_signature_algorithm
            == c.tbs_signature_algorithm@ && c@.signature == c.signature@,
        c@.serial_number == c.serial_number@ && c@.serial_der == c.serial_der@,
        c@.issuer == c.issuer@ && c@.subject == c.subject@,
        c@.spki == c.spki@ && c@.public_key == c.public_key@,
        c@.not_before == c.not_before && c@.not_after == c.not_after,
        c@.extensions is Some <==> c.extensions is Some,
        c.extensions matches Some(list) ==> c@.extensions->0.len() == list@.len() && forall|i: int|
            0 <= i < list@.len() ==> (#[trigger] c@.extensions->0[i]).extn_id == list@[i].extn_id@
                && c@.extensions->0[i].critical == list@[i].critical && c@.extensions->0[i].extn_value
                == list@[i].extn_value@,
{
}

/// A question about a path is seen as what it holds.
pub proof fn law_path_query_is_seen(q: PathQuery)
    ensures
        q@.chain.len() == q.chain@.len(),
        forall|i: int| 0 <= i < q.chain@.len() ==> #[trigger] q@.chain[i] == q.chain@[i]@,
        q@.at == q.at && q@.positive_fraction == q.positive_fraction && q@.role == q.role
            && q@.legacy == q.policy.legacy(),
{
}

/// A target is seen as its host and its port.
pub proof fn law_target_is_seen(t: FetchTarget)
    ensures
        t@.host == t.host@ && t@.port == t.port,
{
}

} // verus!
