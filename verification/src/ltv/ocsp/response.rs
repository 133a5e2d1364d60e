//! Parsing OCSP responses.

use vstd::prelude::*;

use crate::asn1::{decode_algorithm_id, decode_extensions, AlgorithmId, Extension};
use crate::bytes::{bytes_equal, contains_bytes, head, tail, to_vec};
use crate::der_utils::{find_tagged_value, parse_integer_body, parse_tlv_with_rest};
use crate::error::{Fault, LtvError};
use crate::ltv::ocsp::request::OCSP_NONCE_OID;
use crate::ltv::status::RevocationReason;
use crate::time::{parse_generalized_time, UtcTime};
#[allow(unused_imports)]
use crate::agrees;
#[allow(unused_imports)]
use crate::asn1::{
    algorithm_id_of, extension_views, extensions_of, AlgorithmIdView, ExtensionView,
};
#[allow(unused_imports)]
use crate::bytes::{views, without_leading_zeros};
#[allow(unused_imports)]
use crate::der_utils::{lemma_tlv_shrinks, tagged_value, tlv};
#[allow(unused_imports)]
use crate::ltv::status::reason_of_code;
#[allow(unused_imports)]
use crate::opt_view;
#[allow(unused_imports)]
use crate::time::generalized_instant;

verus! {

/// id-pkix-ocsp-basic.
pub const OCSP_BASIC_RESPONSE_OID: [u8; 9] = [
    0x2B, 0x06, 0x01, 0x05, 0x05, 0x07, 0x30, 0x01, 0x01,
];

/// OCSPResponseStatus of a response that carries data.
pub const OCSP_RESPONSE_SUCCESSFUL: u8 = 0;

/// The status of one certificate.
#[derive(Debug, Clone, Copy, PartialEq, Eq, Structural)]
pub enum CertStatus {
    /// Not revoked.
    Good,
    /// Revoked.
    Revoked { revocation_time: UtcTime, reason: RevocationReason },
    /// Not known to the responder.
    Unknown,
}

/// The answer for one certificate.
#[derive(Debug)]
pub struct SingleResponse {
    /// The body of the hash algorithm's object identifier.
    pub hash_algorithm_oid: Vec<u8>,
    /// The hash of the issuer's name.
    pub issuer_name_hash: Vec<u8>,
    /// The hash of the issuer's key.
    pub issuer_key_hash: Vec<u8>,
    /// The serial number, without leading zeros.
    pub serial_number: Vec<u8>,
    /// The status.
    pub cert_status: CertStatus,
    /// When the status was known to be right.
    pub this_update: UtcTime,
    /// When newer information will be there.
    pub next_update: Option<UtcTime>,
}

/// What a [`SingleResponse`] holds.
#[verifier::ext_equal]
pub struct SingleResponseView {
    pub hash_algorithm_oid: Seq<u8>,
    pub issuer_name_hash: Seq<u8>,
    pub issuer_key_hash: Seq<u8>,
    pub serial_number: Seq<u8>,
    pub cert_status: CertStatus,
    pub this_update: UtcTime,
    pub next_update: Option<UtcTime>,
}

impl View for SingleResponse {
    type V = SingleResponseView;

    open spec fn view(&self) -> SingleResponseView {
        SingleResponseView {
            hash_algorithm_oid: self.hash_algorithm_oid@,
            issuer_name_hash: self.issuer_name_hash@,
            issuer_key_hash: self.issuer_key_hash@,
            serial_number: self.serial_number@,
            cert_status: self.cert_status,
            this_update: self.this_update,
            next_update: self.next_update,
        }
    }
}

/// The views of a sequence of answers.
pub open spec fn single_views(s: Seq<SingleResponse>) -> Seq<SingleResponseView> {
    s.map_values(|r: SingleResponse| r@)
}

/// Who signed a response.
#[derive(Debug, Clone)]
pub enum ResponderId {
    /// The responder's Name, as DER.
    ByName(Vec<u8>),
    /// The SHA-1 hash of the responder's public key.
    ByKeyHash(Vec<u8>),
}

/// What a [`ResponderId`] holds.
#[verifier::ext_equal]
pub enum ResponderIdView {
    ByName(Seq<u8>),
    ByKeyHash(Seq<u8>),
}

impl View for ResponderId {
    type V = ResponderIdView;

    open spec fn view(&self) -> ResponderIdView {
        match self {
            ResponderId::ByName(n) => ResponderIdView::ByName(n@),
            ResponderId::ByKeyHash(h) => ResponderIdView::ByKeyHash(h@),
        }
    }
}

/// A parsed BasicOCSPResponse.
#[derive(Debug)]
pub struct ParsedBasicOcspResponse {
    /// The signed data.
    pub tbs_response_data: Vec<u8>,
    /// The signature algorithm.
    pub signature_algorithm: AlgorithmId,
    /// The signature.
    pub signature_bytes: Vec<u8>,
    /// Who signed.
    pub responder_id: ResponderId,
    /// When the response was made.
    pub produced_at: UtcTime,
    /// The answers.
    pub responses: Vec<SingleResponse>,
    /// The nonce.
    pub nonce: Option<Vec<u8>>,
    /// The certificates that came with the response, as DER.
    pub embedded_certs_der: Vec<Vec<u8>>,
}

/// What a [`ParsedBasicOcspResponse`] holds.
#[verifier::ext_equal]
pub struct BasicResponseView {
    pub tbs_response_data: Seq<u8>,
    pub signature_algorithm: AlgorithmIdView,
    pub signature_bytes: Seq<u8>,
    pub responder_id: ResponderIdView,
    pub produced_at: UtcTime,
    pub responses: Seq<SingleResponseView>,
    pub nonce: Option<Seq<u8>>,
    pub embedded_certs_der: Seq<Seq<u8>>,
}

impl View for ParsedBasicOcspResponse {
    type V = BasicResponseView;

    open spec fn view(&self) -> BasicResponseView {
        BasicResponseView {
            tbs_response_data: self.tbs_response_data@,
            signature_algorithm: self.signature_algorithm@,
            signature_bytes: self.signature_bytes@,
            responder_id: self.responder_id@,
            produced_at: self.produced_at,
            responses: single_views(self.responses@),
            nonce: opt_view(self.nonce),
            embedded_certs_der: views(self.embedded_certs_der@),
        }
    }
}

/// An OCSP error.
pub open spec fn ocsp<T>(fault: Fault) -> Result<T, LtvError> {
    Err(LtvError::Ocsp(fault))
}

/// The element at the start of `s`, named for errors.
#[verifier::opaque]
pub open spec fn ocsp_field(s: Seq<u8>, context: &'static str) -> Result<
    (u8, Seq<u8>, Seq<u8>),
    LtvError,
> {
    match tlv(s) {
        Err(e) => ocsp(Fault::Der(context, e)),
        Ok(v) => Ok(v),
    }
}

/// Reads the element at the start of `s`.
pub fn parse_field<'a>(s: &'a [u8], context: &'static str) -> (r: Result<
    (u8, &'a [u8], &'a [u8]),
    LtvError,
>)
    ensures
        agrees(r, ocsp_field(s@, context)),
        r matches Ok((_, body, rest)) ==> rest.len() < s.len() && body.len() < s.len() && s.len()
            > 0 && rest@ == s@.skip(s.len() - rest.len()),
{
    proof {
        reveal(ocsp_field);
        lemma_tlv_shrinks(s@);
    }
    match parse_tlv_with_rest(s) {
        Err(e) => Err(LtvError::Ocsp(Fault::Der(context, e))),
        Ok(v) => Ok(v),
    }
}

/// What follows an element is shorter than the input.
pub proof fn lemma_ocsp_field_shrinks(s: Seq<u8>, context: &'static str)
    ensures
        ocsp_field(s, context) matches Ok((_, body, rest)) ==> rest.len() < s.len() && body.len()
            < s.len(),
{
    reveal(ocsp_field);
    lemma_tlv_shrinks(s);
}

/// The body of the element at the start of `s`, which must carry `tag`, and what
/// follows it.
pub open spec fn ocsp_expect(
    s: Seq<u8>,
    tag: u8,
    context: &'static str,
    fault: Fault,
) -> Result<(Seq<u8>, Seq<u8>), LtvError> {
    match ocsp_field(s, context) {
        Err(e) => Err(e),
        Ok((t, body, rest)) => if t != tag { ocsp(fault) } else { Ok((body, rest)) },
    }
}

/// As [`ocsp_expect`], with an error that shows the tag.
pub open spec fn ocsp_expect_tag(
    s: Seq<u8>,
    tag: u8,
    context: &'static str,
    before_tag: &'static str,
) -> Result<(Seq<u8>, Seq<u8>), LtvError> {
    match ocsp_field(s, context) {
        Err(e) => Err(e),
        Ok((t, body, rest)) => if t != tag {
            ocsp(Fault::Tag(before_tag, t))
        } else {
            Ok((body, rest))
        },
    }
}

fn expect<'a>(s: &'a [u8], tag: u8, context: &'static str, fault: Fault) -> (r: Result<
    (&'a [u8], &'a [u8]),
    LtvError,
>)
    ensures
        agrees(r, ocsp_expect(s@, tag, context, fault)),
{
    let (t, body, rest) = parse_field(s, context)?;
    if t != tag {
        return Err(LtvError::Ocsp(fault));
    }
    Ok((body, rest))
}

fn expect_tag<'a>(s: &'a [u8], tag: u8, context: &'static str, before_tag: &'static str) -> (r:
    Result<(&'a [u8], &'a [u8]), LtvError>)
    ensures
        agrees(r, ocsp_expect_tag(s@, tag, context, before_tag)),
        r matches Ok((_, rest)) ==> rest.len() < s.len(),
{
    let (t, body, rest) = parse_field(s, context)?;
    if t != tag {
        return Err(LtvError::Ocsp(Fault::Tag(before_tag, t)));
    }
    Ok((body, rest))
}

/// The instant of a GeneralizedTime body.
pub open spec fn ocsp_time(body: Seq<u8>, message: &'static str) -> Result<UtcTime, LtvError> {
    match generalized_instant(body) {
        None => ocsp(Fault::Text(message)),
        Some(t) => Ok(t),
    }
}

fn parse_time(body: &[u8], message: &'static str) -> (r: Result<UtcTime, LtvError>)
    ensures
        r == ocsp_time(body@, message),
{
    match parse_generalized_time(body) {
        None => Err(LtvError::Ocsp(Fault::Text(message))),
        Some(t) => Ok(t),
    }
}

/// The status code of an OCSPResponse, checked to be successful.
pub open spec fn response_status(s: Seq<u8>) -> Result<(), LtvError> {
    match ocsp_expect_tag(
        s,
        0x30,
        "OCSP response parse error",
        "OCSP response: expected SEQUENCE, got ",
    ) {
        Err(e) => Err(e),
        Ok((body, _)) => match ocsp_expect_tag(
            body,
            0x0A,
            "OCSP response parse error",
            "OCSP response: expected ENUMERATED status, got ",
        ) {
            Err(e) => Err(e),
            Ok((status, _)) => if status.len() == 0 {
                ocsp(Fault::Text("OCSP response: empty status"))
            } else if status[0] != OCSP_RESPONSE_SUCCESSFUL {
                Err(LtvError::OcspResponderStatus(status[0]))
            } else {
                Ok(())
            },
        },
    }
}

/// Checks that an OCSPResponse reports success.
pub fn validate_ocsp_response_status(der_bytes: &[u8]) -> (r: Result<(), LtvError>)
    ensures
        r == response_status(der_bytes@),
{
    let (body, _) = expect_tag(
        der_bytes,
        0x30,
        "OCSP response parse error",
        "OCSP response: expected SEQUENCE, got ",
    )?;
    let (status, _) = expect_tag(
        body,
        0x0A,
        "OCSP response parse error",
        "OCSP response: expected ENUMERATED status, got ",
    )?;
    if status.len() == 0 {
        return Err(LtvError::Ocsp(Fault::Text("OCSP response: empty status")));
    }
    if status[0] != OCSP_RESPONSE_SUCCESSFUL {
        return Err(LtvError::OcspResponderStatus(status[0]));
    }
    Ok(())
}

/// The reason in the optional part of a RevokedInfo.
pub open spec fn revocation_reason(s: Seq<u8>) -> Result<RevocationReason, LtvError> {
    if s.len() == 0 || s[0] != 0xA0 {
        Ok(RevocationReason::Unspecified)
    } else {
        match ocsp_field(s, "revocationReason") {
            Err(e) => Err(e),
            Ok((_, inner, _)) => match tagged_value(inner, 0x0A) {
                None => Ok(RevocationReason::Unspecified),
                Some(code) => if code.len() == 0 {
                    Ok(RevocationReason::Unspecified)
                } else {
                    Ok(reason_of_code(code[0]))
                },
            },
        }
    }
}

/// The status of a RevokedInfo body.
pub open spec fn revoked_info(body: Seq<u8>) -> Result<CertStatus, LtvError> {
    match ocsp_expect_tag(
        body,
        0x18,
        "revocationTime",
        "expected revocationTime GeneralizedTime, got ",
    ) {
        Err(e) => Err(e),
        Ok((time, rest)) => match ocsp_time(time, "revocationTime parse: invalid GeneralizedTime") {
            Err(e) => Err(e),
            Ok(revocation_time) => match revocation_reason(rest) {
                Err(e) => Err(e),
                Ok(reason) => Ok(CertStatus::Revoked { revocation_time, reason }),
            },
        },
    }
}

/// Parses the body of a RevokedInfo.
pub fn parse_revoked_info(body: &[u8]) -> (r: Result<CertStatus, LtvError>)
    ensures
        r == revoked_info(body@),
{
    let (time, rest) = expect_tag(
        body,
        0x18,
        "revocationTime",
        "expected revocationTime GeneralizedTime, got ",
    )?;
    let revocation_time = parse_time(time, "revocationTime parse: invalid GeneralizedTime")?;
    let mut reason = RevocationReason::Unspecified;
    if rest.len() != 0 && rest[0] == 0xA0 {
        let (_, inner, _) = parse_field(rest, "revocationReason")?;
        match find_tagged_value(inner, 0x0A) {
            Some(code) => {
                if code.len() != 0 {
                    reason = RevocationReason::from_code(code[0]);
                }
            },
            None => {},
        }
    }
    Ok(CertStatus::Revoked { revocation_time, reason })
}

/// The nonce of an extension value: the contents where the value is exactly one
/// OCTET STRING, and else the value itself.
pub open spec fn nonce_value(value: Seq<u8>) -> Seq<u8> {
    match tlv(value) {
        Ok((tag, body, rest)) => if tag == 0x04 && rest.len() == 0 { body } else { value },
        Err(_) => value,
    }
}

fn read_nonce(value: &[u8]) -> (r: Vec<u8>)
    ensures
        r@ == nonce_value(value@),
{
    match parse_tlv_with_rest(value) {
        Ok((tag, body, rest)) => if tag == 0x04 && rest.len() == 0 {
            to_vec(body)
        } else {
            to_vec(value)
        },
        Err(_) => to_vec(value),
    }
}

/// The nonce of a list of extensions from index `i` on, `nonce` where one came
/// before. No identifier may occur twice or be among `seen`; the nonce is allowed
/// at the response level only; nothing else may be critical.
pub open spec fn extension_nonce(
    list: Seq<ExtensionView>,
    response_level: bool,
    i: nat,
    seen: Seq<Seq<u8>>,
    nonce: Option<Seq<u8>>,
) -> Result<Option<Seq<u8>>, LtvError>
    decreases list.len() - i,
{
    if i >= list.len() {
        Ok(nonce)
    } else {
        let e = list[i as int];
        if seen.contains(e.extn_id) {
            ocsp(Fault::Text("duplicate OCSP extension"))
        } else if e.extn_id == OCSP_NONCE_OID@ {
            if !response_level {
                ocsp(Fault::Text("nonce is not permitted in singleExtensions"))
            } else {
                extension_nonce(
                    list,
                    response_level,
                    i + 1,
                    seen.push(e.extn_id),
                    Some(nonce_value(e.extn_value)),
                )
            }
        } else if e.critical {
            ocsp(Fault::Text("unsupported critical OCSP extension"))
        } else {
            extension_nonce(list, response_level, i + 1, seen.push(e.extn_id), nonce)
        }
    }
}

/// The nonce of an Extensions element.
pub open spec fn ocsp_extensions(area: Seq<u8>, response_level: bool) -> Result<
    Option<Seq<u8>>,
    LtvError,
> {
    match extensions_of(area) {
        None => ocsp(Fault::Malformed("OCSP extensions")),
        Some(list) => if list.len() == 0 {
            ocsp(Fault::Text("empty OCSP Extensions"))
        } else {
            extension_nonce(list, response_level, 0, Seq::empty(), None)
        },
    }
}

/// Parses an Extensions element; returns the nonce.
pub fn parse_ocsp_extensions(ext_area: &[u8], response_level: bool) -> (r: Result<
    Option<Vec<u8>>,
    LtvError,
>)
    ensures
        match (r, ocsp_extensions(ext_area@, response_level)) {
            (Ok(n), Ok(m)) => opt_view(n) == m,
            (Err(e), Err(f)) => e == f,
            _ => false,
        },
{
    let list: Vec<Extension> = match decode_extensions(ext_area) {
        None => return Err(LtvError::Ocsp(Fault::Malformed("OCSP extensions"))),
        Some(l) => l,
    };
    let ghost all = extension_views(list@);
    assert(all.len() == list@.len());
    if list.len() == 0 {
        return Err(LtvError::Ocsp(Fault::Text("empty OCSP Extensions")));
    }
    let mut seen: Vec<Vec<u8>> = Vec::new();
    let mut nonce: Option<Vec<u8>> = None;
    assert(views(seen@) =~= Seq::<Seq<u8>>::empty());
    let mut i: usize = 0;
    while i < list.len()
        invariant
            i <= list.len(),
            all == extension_views(list@),
            all.len() == list@.len(),
            extension_nonce(all, response_level, i as nat, views(seen@), opt_view(nonce))
                == ocsp_extensions(ext_area@, response_level),
        decreases list.len() - i,
    {
        let e = &list[i];
        assert(all[i as int] == e@);
        if contains_bytes(&seen, e.extn_id.as_slice()) {
            return Err(LtvError::Ocsp(Fault::Text("duplicate OCSP extension")));
        }
        let ghost before = views(seen@);
        seen.push(to_vec(e.extn_id.as_slice()));
        assert(views(seen@) =~= before.push(e@.extn_id));
        if bytes_equal(e.extn_id.as_slice(), OCSP_NONCE_OID.as_slice()) {
            if !response_level {
                return Err(
                    LtvError::Ocsp(Fault::Text("nonce is not permitted in singleExtensions")),
                );
            }
            nonce = Some(read_nonce(e.extn_value.as_slice()));
        } else if e.critical {
            return Err(LtvError::Ocsp(Fault::Text("unsupported critical OCSP extension")));
        }
        i += 1;
    }
    Ok(nonce)
}

/// The parts of a CertID body: the hash algorithm, the hashes of the issuer's name
/// and key, and the serial number without leading zeros.
pub open spec fn cert_id_fields(body: Seq<u8>) -> Result<
    (Seq<u8>, Seq<u8>, Seq<u8>, Seq<u8>),
    LtvError,
> {
    match ocsp_expect(
        body,
        0x30,
        "CertID hashAlgorithm",
        Fault::Text("expected hashAlgorithm SEQUENCE"),
    ) {
        Err(e) => Err(e),
        Ok((alg, s1)) => match ocsp_expect(
            alg,
            0x06,
            "hashAlgorithm OID",
            Fault::Text("expected OID in hashAlgorithm"),
        ) {
            Err(e) => Err(e),
            Ok((oid, _)) => match ocsp_expect(
                s1,
                0x04,
                "issuerNameHash",
                Fault::Text("expected issuerNameHash OCTET STRING"),
            ) {
                Err(e) => Err(e),
                Ok((name_hash, s2)) => match ocsp_expect(
                    s2,
                    0x04,
                    "issuerKeyHash",
                    Fault::Text("expected issuerKeyHash OCTET STRING"),
                ) {
                    Err(e) => Err(e),
                    Ok((key_hash, s3)) => match ocsp_expect(
                        s3,
                        0x02,
                        "serialNumber",
                        Fault::Text("expected serialNumber INTEGER"),
                    ) {
                        Err(e) => Err(e),
                        Ok((serial, _)) => Ok(
                            (oid, name_hash, key_hash, without_leading_zeros(serial)),
                        ),
                    },
                },
            },
        },
    }
}

fn parse_cert_id_fields(body: &[u8]) -> (r: Result<
    (Vec<u8>, Vec<u8>, Vec<u8>, Vec<u8>),
    LtvError,
>)
    ensures
        agrees(r, cert_id_fields(body@)),
{
    let (alg, s1) = expect(
        body,
        0x30,
        "CertID hashAlgorithm",
        Fault::Text("expected hashAlgorithm SEQUENCE"),
    )?;
    let (oid, _) = expect(
        alg,
        0x06,
        "hashAlgorithm OID",
        Fault::Text("expected OID in hashAlgorithm"),
    )?;
    let (name_hash, s2) = expect(
        s1,
        0x04,
        "issuerNameHash",
        Fault::Text("expected issuerNameHash OCTET STRING"),
    )?;
    let (key_hash, s3) = expect(
        s2,
        0x04,
        "issuerKeyHash",
        Fault::Text("expected issuerKeyHash OCTET STRING"),
    )?;
    let (serial, _) = expect(
        s3,
        0x02,
        "serialNumber",
        Fault::Text("expected serialNumber INTEGER"),
    )?;
    Ok((to_vec(oid), to_vec(name_hash), to_vec(key_hash), parse_integer_body(serial)))
}

/// The status that an element with tag `tag` and body `body` reports.
pub open spec fn cert_status(tag: u8, body: Seq<u8>) -> Result<CertStatus, LtvError> {
    if tag == 0x80 {
        Ok(CertStatus::Good)
    } else if tag == 0xA1 {
        revoked_info(body)
    } else if tag == 0x82 {
        Ok(CertStatus::Unknown)
    } else {
        ocsp(Fault::Tag("unknown certStatus tag: ", tag))
    }
}

/// The optional nextUpdate at the start of `s`, and what follows it.
pub open spec fn next_update(s: Seq<u8>) -> Result<(Option<UtcTime>, Seq<u8>), LtvError> {
    if s.len() == 0 || s[0] != 0xA0 {
        Ok((None, s))
    } else {
        match ocsp_field(s, "nextUpdate [0]") {
            Err(e) => Err(e),
            Ok((_, inner, rest)) => match ocsp_field(inner, "nextUpdate GeneralizedTime") {
                Err(e) => Err(e),
                Ok((tag, body, _)) => if tag != 0x18 {
                    Ok((None, rest))
                } else {
                    match ocsp_time(body, "nextUpdate parse: invalid GeneralizedTime") {
                        Err(e) => Err(e),
                        Ok(t) => Ok((Some(t), rest)),
                    }
                },
            },
        }
    }
}

fn parse_next_update(s: &[u8]) -> (r: Result<(Option<UtcTime>, &[u8]), LtvError>)
    ensures
        match (r, next_update(s@)) {
            (Ok((t, rest)), Ok((u, w))) => t == u && rest@ == w,
            (Err(e), Err(f)) => e == f,
            _ => false,
        },
{
    if s.len() == 0 || s[0] != 0xA0 {
        return Ok((None, s));
    }
    let (_, inner, rest) = parse_field(s, "nextUpdate [0]")?;
    let (tag, body, _) = parse_field(inner, "nextUpdate GeneralizedTime")?;
    if tag != 0x18 {
        return Ok((None, rest));
    }
    let time = parse_time(body, "nextUpdate parse: invalid GeneralizedTime")?;
    Ok((Some(time), rest))
}

/// The optional extensions at the end of a SingleResponse.
pub open spec fn single_extensions(s: Seq<u8>) -> Result<(), LtvError> {
    if s.len() == 0 {
        Ok(())
    } else {
        match ocsp_field(s, "singleExtensions") {
            Err(e) => Err(e),
            Ok((tag, area, trailing)) => if tag != 0xA1 || trailing.len() != 0 {
                ocsp(Fault::Text("unexpected or duplicate singleExtensions fields"))
            } else {
                match ocsp_extensions(area, false) {
                    Err(e) => Err(e),
                    Ok(_) => Ok(()),
                }
            },
        }
    }
}

fn check_single_extensions(s: &[u8]) -> (r: Result<(), LtvError>)
    ensures
        r == single_extensions(s@),
{
    if s.len() == 0 {
        return Ok(());
    }
    let (tag, area, trailing) = parse_field(s, "singleExtensions")?;
    if tag != 0xA1 || trailing.len() != 0 {
        return Err(
            LtvError::Ocsp(Fault::Text("unexpected or duplicate singleExtensions fields")),
        );
    }
    let _nonce = parse_ocsp_extensions(area, false)?;
    Ok(())
}

/// The answer of a SingleResponse body.
pub open spec fn single_response(s: Seq<u8>) -> Result<SingleResponseView, LtvError> {
    match ocsp_expect_tag(s, 0x30, "CertID", "expected CertID SEQUENCE, got ") {
        Err(e) => Err(e),
        Ok((id, s1)) => match cert_id_fields(id) {
            Err(e) => Err(e),
            Ok((hash_algorithm_oid, issuer_name_hash, issuer_key_hash, serial_number)) => match
                ocsp_field(s1, "certStatus") {
                Err(e) => Err(e),
                Ok((tag, body, s2)) => match cert_status(tag, body) {
                    Err(e) => Err(e),
                    Ok(status) => match single_times(s2) {
                        Err(e) => Err(e),
                        Ok((this_update, next, s3)) => match single_extensions(s3) {
                            Err(e) => Err(e),
                            Ok(()) => Ok(
                                SingleResponseView {
                                    hash_algorithm_oid,
                                    issuer_name_hash,
                                    issuer_key_hash,
                                    serial_number,
                                    cert_status: status,
                                    this_update,
                                    next_update: next,
                                },
                            ),
                        },
                    },
                },
            },
        },
    }
}

/// thisUpdate and nextUpdate at the start of `s`, and what follows them.
pub open spec fn single_times(s: Seq<u8>) -> Result<
    (UtcTime, Option<UtcTime>, Seq<u8>),
    LtvError,
> {
    match ocsp_expect_tag(s, 0x18, "thisUpdate", "expected thisUpdate GeneralizedTime, got ") {
        Err(e) => Err(e),
        Ok((body, rest)) => match ocsp_time(body, "thisUpdate parse: invalid GeneralizedTime") {
            Err(e) => Err(e),
            Ok(this_update) => match next_update(rest) {
                Err(e) => Err(e),
                Ok((next, after)) => Ok((this_update, next, after)),
            },
        },
    }
}

/// Parses the body of a SingleResponse.
pub fn parse_single_response(body: &[u8]) -> (r: Result<SingleResponse, LtvError>)
    ensures
        agrees(r, single_response(body@)),
{
    let (id, s1) = expect_tag(body, 0x30, "CertID", "expected CertID SEQUENCE, got ")?;
    let (hash_algorithm_oid, issuer_name_hash, issuer_key_hash, serial_number) =
        parse_cert_id_fields(id)?;
    let (tag, status_body, s2) = parse_field(s1, "certStatus")?;
    let cert_status = if tag == 0x80 {
        CertStatus::Good
    } else if tag == 0xA1 {
        parse_revoked_info(status_body)?
    } else if tag == 0x82 {
        CertStatus::Unknown
    } else {
        return Err(LtvError::Ocsp(Fault::Tag("unknown certStatus tag: ", tag)));
    };
    let (time, after_this) = expect_tag(
        s2,
        0x18,
        "thisUpdate",
        "expected thisUpdate GeneralizedTime, got ",
    )?;
    let this_update = parse_time(time, "thisUpdate parse: invalid GeneralizedTime")?;
    let (next_update, s3) = parse_next_update(after_this)?;
    check_single_extensions(s3)?;
    Ok(
        SingleResponse {
            hash_algorithm_oid,
            issuer_name_hash,
            issuer_key_hash,
            serial_number,
            cert_status,
            this_update,
            next_update,
        },
    )
}

/// The answers in a list of SingleResponses, after those of `found`. Elements that
/// are no SEQUENCE are passed over.
pub open spec fn single_responses(s: Seq<u8>, found: Seq<SingleResponseView>) -> Result<
    Seq<SingleResponseView>,
    LtvError,
>
    decreases s.len(),
{
    if s.len() == 0 {
        Ok(found)
    } else {
        proof {
            lemma_ocsp_field_shrinks(s, "SingleResponse");
        }
        match ocsp_field(s, "SingleResponse") {
            Err(e) => Err(e),
            Ok((tag, body, rest)) => if tag != 0x30 {
                single_responses(rest, found)
            } else {
                match single_response(body) {
                    Err(e) => Err(e),
                    Ok(r) => single_responses(rest, found.push(r)),
                }
            },
        }
    }
}

fn parse_single_responses(body: &[u8]) -> (r: Result<Vec<SingleResponse>, LtvError>)
    ensures
        match (r, single_responses(body@, Seq::empty())) {
            (Ok(v), Ok(w)) => single_views(v@) == w,
            (Err(e), Err(f)) => e == f,
            _ => false,
        },
{
    let mut responses: Vec<SingleResponse> = Vec::new();
    assert(single_views(responses@) =~= Seq::<SingleResponseView>::empty());
    let mut pos: &[u8] = body;
    while pos.len() != 0
        invariant
            single_responses(pos@, single_views(responses@)) == single_responses(
                body@,
                Seq::empty(),
            ),
        decreases pos.len(),
    {
        let (tag, single, rest) = parse_field(pos, "SingleResponse")?;
        if tag == 0x30 {
            let parsed = parse_single_response(single)?;
            let ghost before = single_views(responses@);
            responses.push(parsed);
            assert(single_views(responses@) =~= before.push(parsed@));
        }
        pos = rest;
    }
    Ok(responses)
}

/// The certificates in a list, as DER, after those of `found`. Elements that are
/// no SEQUENCE are passed over.
pub open spec fn certificate_list(s: Seq<u8>, found: Seq<Seq<u8>>) -> Result<
    Seq<Seq<u8>>,
    LtvError,
>
    decreases s.len(),
{
    if s.len() == 0 {
        Ok(found)
    } else {
        proof {
            lemma_ocsp_field_shrinks(s, "embedded cert");
        }
        match ocsp_field(s, "embedded cert") {
            Err(e) => Err(e),
            Ok((tag, _, rest)) => if tag != 0x30 {
                certificate_list(rest, found)
            } else {
                certificate_list(rest, found.push(s.take(s.len() - rest.len())))
            },
        }
    }
}

/// The certificates that follow the signature of a BasicOCSPResponse.
pub open spec fn embedded_certificates(s: Seq<u8>) -> Result<Seq<Seq<u8>>, LtvError> {
    if s.len() == 0 {
        Ok(Seq::empty())
    } else {
        match ocsp_field(s, "certs [0]") {
            Err(e) => Err(e),
            Ok((tag, certs, _)) => if tag != 0xA0 {
                Ok(Seq::empty())
            } else {
                match ocsp_field(certs, "certs SEQUENCE") {
                    Err(e) => Err(e),
                    Ok((seq_tag, list, _)) => if seq_tag != 0x30 {
                        Ok(Seq::empty())
                    } else {
                        certificate_list(list, Seq::empty())
                    },
                }
            },
        }
    }
}

fn parse_embedded_certificates(s: &[u8]) -> (r: Result<Vec<Vec<u8>>, LtvError>)
    ensures
        match (r, embedded_certificates(s@)) {
            (Ok(v), Ok(w)) => views(v@) == w,
            (Err(e), Err(f)) => e == f,
            _ => false,
        },
{
    let mut certs: Vec<Vec<u8>> = Vec::new();
    assert(views(certs@) =~= Seq::<Seq<u8>>::empty());
    if s.len() == 0 {
        return Ok(certs);
    }
    let (tag, wrapped, _) = parse_field(s, "certs [0]")?;
    if tag != 0xA0 {
        return Ok(certs);
    }
    let (seq_tag, list, _) = parse_field(wrapped, "certs SEQUENCE")?;
    if seq_tag != 0x30 {
        return Ok(certs);
    }
    let mut pos: &[u8] = list;
    while pos.len() != 0
        invariant
            certificate_list(pos@, views(certs@)) == embedded_certificates(s@),
        decreases pos.len(),
    {
        let (cert_tag, _, rest) = parse_field(pos, "embedded cert")?;
        if cert_tag == 0x30 {
            let ghost before = views(certs@);
            let cert: Vec<u8> = to_vec(head(pos, pos.len() - rest.len()));
            certs.push(cert);
            assert(views(certs@) =~= before.push(cert@));
        }
        pos = rest;
    }
    Ok(certs)
}

/// The responder at the start of `s`, and what follows it.
pub open spec fn responder_id(s: Seq<u8>) -> Result<(ResponderIdView, Seq<u8>), LtvError> {
    if s.len() > 0 && s[0] == 0xA1 {
        match ocsp_field(s, "responderID byName") {
            Err(e) => Err(e),
            Ok((_, name, rest)) => Ok((ResponderIdView::ByName(name), rest)),
        }
    } else if s.len() > 0 && s[0] == 0xA2 {
        match ocsp_field(s, "responderID byKeyHash") {
            Err(e) => Err(e),
            Ok((_, wrapped, rest)) => match ocsp_expect_tag(
                wrapped,
                0x04,
                "responderID keyHash OCTET STRING",
                "expected OCTET STRING in byKeyHash, got ",
            ) {
                Err(e) => Err(e),
                Ok((hash, _)) => Ok((ResponderIdView::ByKeyHash(hash), rest)),
            },
        }
    } else {
        ocsp(Fault::Text("missing or unknown responderID"))
    }
}

fn parse_responder_id(s: &[u8]) -> (r: Result<(ResponderId, &[u8]), LtvError>)
    ensures
        match (r, responder_id(s@)) {
            (Ok((id, rest)), Ok((i, w))) => id@ == i && rest@ == w,
            (Err(e), Err(f)) => e == f,
            _ => false,
        },
{
    if s.len() > 0 && s[0] == 0xA1 {
        let (_, name, rest) = parse_field(s, "responderID byName")?;
        Ok((ResponderId::ByName(to_vec(name)), rest))
    } else if s.len() > 0 && s[0] == 0xA2 {
        let (_, wrapped, rest) = parse_field(s, "responderID byKeyHash")?;
        let (hash, _) = expect_tag(
            wrapped,
            0x04,
            "responderID keyHash OCTET STRING",
            "expected OCTET STRING in byKeyHash, got ",
        )?;
        Ok((ResponderId::ByKeyHash(to_vec(hash)), rest))
    } else {
        Err(LtvError::Ocsp(Fault::Text("missing or unknown responderID")))
    }
}

/// What follows the optional version at the start of ResponseData.
pub open spec fn after_version(s: Seq<u8>) -> Result<Seq<u8>, LtvError> {
    if s.len() > 0 && s[0] == 0xA0 {
        match ocsp_field(s, "version") {
            Err(e) => Err(e),
            Ok((_, _, rest)) => Ok(rest),
        }
    } else {
        Ok(s)
    }
}

fn skip_version(s: &[u8]) -> (r: Result<&[u8], LtvError>)
    ensures
        agrees(r, after_version(s@)),
{
    if s.len() > 0 && s[0] == 0xA0 {
        let (_, _, rest) = parse_field(s, "version")?;
        Ok(rest)
    } else {
        Ok(s)
    }
}

/// The nonce of the optional extensions at the end of ResponseData.
pub open spec fn response_nonce(s: Seq<u8>) -> Result<Option<Seq<u8>>, LtvError> {
    if s.len() == 0 {
        Ok(None)
    } else {
        match ocsp_field(s, "responseExtensions") {
            Err(e) => Err(e),
            Ok((tag, area, trailing)) => if tag != 0xA1 || trailing.len() != 0 {
                ocsp(Fault::Text("unexpected or duplicate responseExtensions fields"))
            } else {
                ocsp_extensions(area, true)
            },
        }
    }
}

fn parse_response_nonce(s: &[u8]) -> (r: Result<Option<Vec<u8>>, LtvError>)
    ensures
        match (r, response_nonce(s@)) {
            (Ok(n), Ok(m)) => opt_view(n) == m,
            (Err(e), Err(f)) => e == f,
            _ => false,
        },
{
    if s.len() == 0 {
        return Ok(None);
    }
    let (tag, area, trailing) = parse_field(s, "responseExtensions")?;
    if tag != 0xA1 || trailing.len() != 0 {
        return Err(
            LtvError::Ocsp(Fault::Text("unexpected or duplicate responseExtensions fields")),
        );
    }
    parse_ocsp_extensions(area, true)
}

/// What ResponseData holds: the responder, the time, the answers and the nonce.
#[verifier::ext_equal]
pub struct ResponseDataView {
    pub responder_id: ResponderIdView,
    pub produced_at: UtcTime,
    pub responses: Seq<SingleResponseView>,
    pub nonce: Option<Seq<u8>>,
}

/// The ResponseData of a SEQUENCE body.
pub open spec fn response_data(s: Seq<u8>) -> Result<ResponseDataView, LtvError> {
    match after_version(s) {
        Err(e) => Err(e),
        Ok(s1) => match responder_id(s1) {
            Err(e) => Err(e),
            Ok((id, s2)) => match ocsp_expect_tag(
                s2,
                0x18,
                "producedAt",
                "expected producedAt GeneralizedTime (0x18), got ",
            ) {
                Err(e) => Err(e),
                Ok((time, s3)) => match ocsp_time(
                    time,
                    "producedAt parse: invalid GeneralizedTime",
                ) {
                    Err(e) => Err(e),
                    Ok(produced_at) => match ocsp_expect_tag(
                        s3,
                        0x30,
                        "responses SEQUENCE",
                        "expected responses SEQUENCE, got ",
                    ) {
                        Err(e) => Err(e),
                        Ok((list, s4)) => match single_responses(list, Seq::empty()) {
                            Err(e) => Err(e),
                            Ok(responses) => match response_nonce(s4) {
                                Err(e) => Err(e),
                                Ok(nonce) => Ok(
                                    ResponseDataView {
                                        responder_id: id,
                                        produced_at,
                                        responses,
                                        nonce,
                                    },
                                ),
                            },
                        },
                    },
                },
            },
        },
    }
}

/// The parsed fields of ResponseData.
pub struct ResponseData {
    pub responder_id: ResponderId,
    pub produced_at: UtcTime,
    pub responses: Vec<SingleResponse>,
    pub nonce: Option<Vec<u8>>,
}

impl View for ResponseData {
    type V = ResponseDataView;

    open spec fn view(&self) -> ResponseDataView {
        ResponseDataView {
            responder_id: self.responder_id@,
            produced_at: self.produced_at,
            responses: single_views(self.responses@),
            nonce: opt_view(self.nonce),
        }
    }
}

fn parse_response_data(s: &[u8]) -> (r: Result<ResponseData, LtvError>)
    ensures
        agrees(r, response_data(s@)),
{
    let s1 = skip_version(s)?;
    let (responder_id, s2) = parse_responder_id(s1)?;
    let (time, s3) = expect_tag(
        s2,
        0x18,
        "producedAt",
        "expected producedAt GeneralizedTime (0x18), got ",
    )?;
    let produced_at = parse_time(time, "producedAt parse: invalid GeneralizedTime")?;
    let (list, s4) = expect_tag(
        s3,
        0x30,
        "responses SEQUENCE",
        "expected responses SEQUENCE, got ",
    )?;
    let responses: Vec<SingleResponse> = parse_single_responses(list)?;
    let nonce: Option<Vec<u8>> = parse_response_nonce(s4)?;
    Ok(ResponseData { responder_id, produced_at, responses, nonce })
}

/// The signed part, the algorithm, the signature and the certificates of a
/// BasicOCSPResponse body.
pub open spec fn basic_envelope(body: Seq<u8>) -> Result<
    (Seq<u8>, Seq<u8>, AlgorithmIdView, Seq<u8>, Seq<Seq<u8>>),
    LtvError,
> {
    match ocsp_expect_tag(
        body,
        0x30,
        "tbsResponseData",
        "expected tbsResponseData SEQUENCE, got ",
    ) {
        Err(e) => Err(e),
        Ok((data, s1)) => match ocsp_expect_tag(
            s1,
            0x30,
            "signatureAlgorithm",
            "expected signatureAlgorithm SEQUENCE, got ",
        ) {
            Err(e) => Err(e),
            Ok((_, s2)) => match algorithm_id_of(s1.take(s1.len() - s2.len())) {
                None => ocsp(Fault::Malformed("signatureAlgorithm decode")),
                Some(algorithm) => match ocsp_expect_tag(
                    s2,
                    0x03,
                    "signature BIT STRING",
                    "expected signature BIT STRING, got ",
                ) {
                    Err(e) => Err(e),
                    Ok((bits, s3)) => if bits.len() == 0 {
                        ocsp(Fault::Text("empty signature BIT STRING"))
                    } else {
                        match embedded_certificates(s3) {
                            Err(e) => Err(e),
                            Ok(certs) => Ok(
                                (
                                    body.take(body.len() - s1.len()),
                                    data,
                                    algorithm,
                                    bits.skip(1),
                                    certs,
                                ),
                            ),
                        }
                    },
                },
            },
        },
    }
}

/// The BasicOCSPResponse that `s` encodes.
pub open spec fn basic_response(s: Seq<u8>) -> Result<BasicResponseView, LtvError> {
    match ocsp_expect_tag(
        s,
        0x30,
        "BasicOCSPResponse",
        "expected BasicOCSPResponse SEQUENCE, got ",
    ) {
        Err(e) => Err(e),
        Ok((body, _)) => match basic_envelope(body) {
            Err(e) => Err(e),
            Ok((tbs, data, signature_algorithm, signature_bytes, certs)) => match response_data(
                data,
            ) {
                Err(e) => Err(e),
                Ok(d) => Ok(
                    BasicResponseView {
                        tbs_response_data: tbs,
                        signature_algorithm,
                        signature_bytes,
                        responder_id: d.responder_id,
                        produced_at: d.produced_at,
                        responses: d.responses,
                        nonce: d.nonce,
                        embedded_certs_der: certs,
                    },
                ),
            },
        },
    }
}

/// Parses a BasicOCSPResponse.
pub fn parse_basic_ocsp_response(der: &[u8]) -> (r: Result<ParsedBasicOcspResponse, LtvError>)
    ensures
        agrees(r, basic_response(der@)),
{
    let (body, _) = expect_tag(
        der,
        0x30,
        "BasicOCSPResponse",
        "expected BasicOCSPResponse SEQUENCE, got ",
    )?;
    let (data, s1) = expect_tag(
        body,
        0x30,
        "tbsResponseData",
        "expected tbsResponseData SEQUENCE, got ",
    )?;
    let tbs_response_data: Vec<u8> = to_vec(head(body, body.len() - s1.len()));
    let (_, s2) = expect_tag(
        s1,
        0x30,
        "signatureAlgorithm",
        "expected signatureAlgorithm SEQUENCE, got ",
    )?;
    let signature_algorithm = match decode_algorithm_id(head(s1, s1.len() - s2.len())) {
        None => return Err(LtvError::Ocsp(Fault::Malformed("signatureAlgorithm decode"))),
        Some(a) => a,
    };
    let (bits, s3) = expect_tag(
        s2,
        0x03,
        "signature BIT STRING",
        "expected signature BIT STRING, got ",
    )?;
    if bits.len() == 0 {
        return Err(LtvError::Ocsp(Fault::Text("empty signature BIT STRING")));
    }
    let signature_bytes: Vec<u8> = to_vec(tail(bits, 1));
    let embedded_certs_der: Vec<Vec<u8>> = parse_embedded_certificates(s3)?;
    let parsed = parse_response_data(data)?;
    Ok(
        ParsedBasicOcspResponse {
            tbs_response_data,
            signature_algorithm,
            signature_bytes,
            responder_id: parsed.responder_id,
            produced_at: parsed.produced_at,
            responses: parsed.responses,
            nonce: parsed.nonce,
            embedded_certs_der,
        },
    )
}

/// The response bytes of a successful OCSPResponse body.
pub open spec fn response_bytes(s: Seq<u8>) -> Result<Seq<u8>, LtvError> {
    match ocsp_field(s, "responseStatus") {
        Err(e) => Err(e),
        Ok((tag, status, rest)) => if tag != 0x0A || status.len() == 0 {
            ocsp(Fault::Text("invalid responseStatus"))
        } else if status[0] != OCSP_RESPONSE_SUCCESSFUL {
            Err(LtvError::OcspResponderStatus(status[0]))
        } else if rest.len() == 0 {
            ocsp(Fault::Text("OCSP response successful but no responseBytes"))
        } else {
            match ocsp_expect_tag(
                rest,
                0xA0,
                "responseBytes",
                "expected responseBytes [0], got ",
            ) {
                Err(e) => Err(e),
                Ok((wrapped, _)) => match ocsp_expect_tag(
                    wrapped,
                    0x30,
                    "ResponseBytes SEQUENCE",
                    "expected ResponseBytes SEQUENCE, got ",
                ) {
                    Err(e) => Err(e),
                    Ok((body, _)) => Ok(body),
                },
            }
        },
    }
}

/// The OCSPResponse that `s` encodes.
pub open spec fn ocsp_response(s: Seq<u8>) -> Result<BasicResponseView, LtvError> {
    match ocsp_expect_tag(
        s,
        0x30,
        "OCSPResponse outer",
        "expected OCSPResponse SEQUENCE, got ",
    ) {
        Err(e) => Err(e),
        Ok((outer, _)) => match response_bytes(outer) {
            Err(e) => Err(e),
            Ok(body) => match ocsp_expect(
                body,
                0x06,
                "responseType OID",
                Fault::Text("expected responseType OID"),
            ) {
                Err(e) => Err(e),
                Ok((oid, rest)) => if oid != OCSP_BASIC_RESPONSE_OID@ {
                    ocsp(Fault::Text("responseType is not id-pkix-ocsp-basic"))
                } else {
                    match ocsp_expect(
                        rest,
                        0x04,
                        "response OCTET STRING",
                        Fault::Text("expected response OCTET STRING"),
                    ) {
                        Err(e) => Err(e),
                        Ok((basic, _)) => basic_response(basic),
                    }
                },
            },
        },
    }
}

/// Parses an OCSPResponse that carries a BasicOCSPResponse.
pub fn parse_ocsp_response(response_der: &[u8]) -> (r: Result<ParsedBasicOcspResponse, LtvError>)
    ensures
        agrees(r, ocsp_response(response_der@)),
{
    let (outer, _) = expect_tag(
        response_der,
        0x30,
        "OCSPResponse outer",
        "expected OCSPResponse SEQUENCE, got ",
    )?;
    let (status_tag, status, rest) = parse_field(outer, "responseStatus")?;
    if status_tag != 0x0A || status.len() == 0 {
        return Err(LtvError::Ocsp(Fault::Text("invalid responseStatus")));
    }
    if status[0] != OCSP_RESPONSE_SUCCESSFUL {
        return Err(LtvError::OcspResponderStatus(status[0]));
    }
    if rest.len() == 0 {
        return Err(
            LtvError::Ocsp(Fault::Text("OCSP response successful but no responseBytes")),
        );
    }
    let (wrapped, _) = expect_tag(
        rest,
        0xA0,
        "responseBytes",
        "expected responseBytes [0], got ",
    )?;
    let (body, _) = expect_tag(
        wrapped,
        0x30,
        "ResponseBytes SEQUENCE",
        "expected ResponseBytes SEQUENCE, got ",
    )?;
    let (oid, after_oid) = expect(
        body,
        0x06,
        "responseType OID",
        Fault::Text("expected responseType OID"),
    )?;
    if !bytes_equal(oid, OCSP_BASIC_RESPONSE_OID.as_slice()) {
        return Err(LtvError::Ocsp(Fault::Text("responseType is not id-pkix-ocsp-basic")));
    }
    let (basic, _) = expect(
        after_oid,
        0x04,
        "response OCTET STRING",
        Fault::Text("expected response OCTET STRING"),
    )?;
    parse_basic_ocsp_response(basic)
}

/// A list of extensions that is accepted outside the response level holds no
/// nonce, and one that is accepted anywhere has no critical extension but a nonce
/// and no identifier twice.
pub proof fn law_extensions(
    list: Seq<ExtensionView>,
    response_level: bool,
    i: nat,
    seen: Seq<Seq<u8>>,
    nonce: Option<Seq<u8>>,
)
    requires
        extension_nonce(list, response_level, i, seen, nonce) is Ok,
    ensures
        forall|k: int|
            i <= k < list.len() ==> {
                &&& !seen.contains((#[trigger] list[k]).extn_id)
                &&& list[k].extn_id == OCSP_NONCE_OID@ ==> response_level
                &&& list[k].extn_id != OCSP_NONCE_OID@ ==> !list[k].critical
            },
        forall|j: int, k: int|
            i <= j < k < list.len() ==> (#[trigger] list[j]).extn_id != (
            #[trigger] list[k]).extn_id,
        !response_level ==> extension_nonce(list, response_level, i, seen, nonce) == Ok::<
            Option<Seq<u8>>,
            LtvError,
        >(nonce),
    decreases list.len() - i,
{
    if i < list.len() {
        let e = list[i as int];
        let longer = seen.push(e.extn_id);
        let found = if e.extn_id == OCSP_NONCE_OID@ {
            Some(nonce_value(e.extn_value))
        } else {
            nonce
        };
        law_extensions(list, response_level, i + 1, longer, found);
        assert forall|k: int| i < k < list.len() implies !seen.contains(
            (#[trigger] list[k]).extn_id,
        ) && list[k].extn_id != e.extn_id by {
            assert(longer[seen.len() as int] == e.extn_id);
            if seen.contains(list[k].extn_id) {
                let w = choose|w: int| 0 <= w < seen.len() && seen[w] == list[k].extn_id;
                assert(longer[w] == list[k].extn_id);
            }
        }
    }
}

} // verus!
