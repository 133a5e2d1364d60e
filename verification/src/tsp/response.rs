//! TimeStampReq and TimeStampResp.

use vstd::prelude::*;

use crate::asn1::{decode_bit_string, decode_u64, has_nonzero_padding};
use crate::bytes::{native_u64, to_vec};
use crate::crypto::algorithm::{random_bytes, DigestAlgorithm};
use crate::der_utils::{encode_boolean, encode_integer_u64, encode_sequence_raw, encode_tlv};
use crate::error::{Fault, TspError};
use crate::oid::Oid;
use crate::text::utf8_text;
use crate::tsp::field::parse_tst_field;
use crate::tsp::status::PkiStatus;
#[allow(unused_imports)]
use crate::agrees;
#[allow(unused_imports)]
use crate::asn1::{
    algorithm_id_of, bit_string, nonzero_padding, oid_valid, uint_within, whole_arcs,
    AlgorithmIdView, MAX_DER_LENGTH,
};
#[allow(unused_imports)]
use crate::bytes::is_native_value;
#[allow(unused_imports)]
use crate::crypto::algorithm::{digest_from_oid, digest_oid, digest_size};
#[allow(unused_imports)]
use crate::der_utils::{integer_contents, law_tlv_round_trip, tlv, tlv_bytes};
#[allow(unused_imports)]
use crate::opt_view;
#[allow(unused_imports)]
use crate::text::utf8_of;
#[allow(unused_imports)]
use crate::tsp::field::{law_field_round_trip, lemma_field_shrinks, tst_field};
#[allow(unused_imports)]
use crate::tsp::status::status_of_code;
#[allow(unused_imports)]
use crate::tsp::tst_info::{invalid, message_imprint};

verus! {

/// What a timestamping authority answers.
#[derive(Debug)]
pub struct TimeStampResp {
    /// The status.
    pub status: PkiStatus,
    /// The first line of the status text.
    pub status_string: Option<String>,
    /// The contents of the failure BIT STRING.
    pub failure_info: Option<Vec<u8>>,
    /// The token, a CMS ContentInfo as DER. It is present only where the status is
    /// granted or granted with modifications.
    pub token_der: Option<Vec<u8>>,
}

/// What a [`TimeStampResp`] holds.
#[verifier::ext_equal]
pub struct TimeStampRespView {
    pub status: PkiStatus,
    pub status_string: Option<Seq<char>>,
    pub failure_info: Option<Seq<u8>>,
    pub token_der: Option<Seq<u8>>,
}

impl View for TimeStampResp {
    type V = TimeStampRespView;

    open spec fn view(&self) -> TimeStampRespView {
        TimeStampRespView {
            status: self.status,
            status_string: opt_view(self.status_string),
            failure_info: opt_view(self.failure_info),
            token_der: opt_view(self.token_der),
        }
    }
}

/// The first text of a PKIFreeText body, `first` where one came before; every
/// element must be a UTF8String.
pub open spec fn free_text(s: Seq<u8>, first: Option<Seq<char>>) -> Result<
    Option<Seq<char>>,
    TspError,
>
    decreases s.len(),
{
    if s.len() == 0 {
        Ok(first)
    } else if s[0] != 0x0C {
        invalid(Fault::Tag("statusString element is not a UTF8String (tag 0x0c), got ", s[0]))
    } else {
        proof {
            lemma_field_shrinks(s, 0x0C, "statusString");
        }
        match tst_field(s, 0x0C, "statusString") {
            Err(e) => Err(e),
            Ok((contents, rest)) => match utf8_of(contents) {
                None => invalid(Fault::Text("statusString is not valid UTF-8")),
                Some(text) => free_text(
                    rest,
                    if first is None { Some(text) } else { first },
                ),
            },
        }
    }
}

/// Parses the body of a PKIFreeText; returns its first text.
pub fn parse_free_text(body: &[u8]) -> (r: Result<Option<String>, TspError>)
    ensures
        match (r, free_text(body@, None)) {
            (Ok(t), Ok(u)) => opt_view(t) == u,
            (Err(e), Err(f)) => e == f,
            _ => false,
        },
{
    let mut pos: &[u8] = body;
    let mut first: Option<String> = None;
    while pos.len() != 0
        invariant
            free_text(pos@, opt_view(first)) == free_text(body@, None),
        decreases pos.len(),
    {
        if pos[0] != 0x0C {
            return Err(
                TspError::InvalidResponse(
                    Fault::Tag(
                        "statusString element is not a UTF8String (tag 0x0c), got ",
                        pos[0],
                    ),
                ),
            );
        }
        proof {
            lemma_field_shrinks(pos@, 0x0C, "statusString");
        }
        let (contents, rest) = parse_tst_field(pos, 0x0C, "statusString")?;
        match utf8_text(contents) {
            None => return Err(
                TspError::InvalidResponse(Fault::Text("statusString is not valid UTF-8")),
            ),
            Some(text) => {
                if first.is_none() {
                    first = Some(text);
                }
            },
        }
        pos = rest;
    }
    Ok(first)
}

/// The optional fields of a PKIStatusInfo, after a text and a failure that came
/// before: at most one status text, then at most one failure.
pub open spec fn status_fields(
    s: Seq<u8>,
    text: Option<Seq<char>>,
    failure: Option<Seq<u8>>,
) -> Result<(Option<Seq<char>>, Option<Seq<u8>>), TspError>
    decreases s.len(),
{
    if s.len() == 0 {
        Ok((text, failure))
    } else {
        proof {
            lemma_field_shrinks(s, s[0], "PKIStatusInfo field");
        }
        match tst_field(s, s[0], "PKIStatusInfo field") {
            Err(e) => Err(e),
            Ok((contents, rest)) => if s[0] == 0x30 {
                if text is Some || failure is Some {
                    invalid(Fault::Text("PKIStatusInfo: duplicate or out-of-order statusString"))
                } else if contents.len() == 0 {
                    invalid(
                        Fault::Text(
                            "statusString PKIFreeText SEQUENCE is empty (violates SIZE (1..MAX))",
                        ),
                    )
                } else {
                    match free_text(contents, None) {
                        Err(e) => Err(e),
                        Ok(t) => status_fields(rest, t, failure),
                    }
                }
            } else if s[0] == 0x03 {
                if failure is Some {
                    invalid(Fault::Text("PKIStatusInfo: duplicate failureInfo"))
                } else {
                    match bit_string(contents) {
                        None => invalid(Fault::Malformed("PKIStatusInfo failureInfo")),
                        Some((unused, octets)) => if nonzero_padding(unused, octets) {
                            invalid(
                                Fault::Text("PKIStatusInfo failureInfo: nonzero unused bits"),
                            )
                        } else {
                            status_fields(rest, text, Some(contents))
                        },
                    }
                }
            } else {
                invalid(Fault::Tag("PKIStatusInfo: unexpected field ", s[0]))
            },
        }
    }
}

/// Parses the optional fields of a PKIStatusInfo: the status text and the failure.
pub fn parse_status_fields(body: &[u8]) -> (r: Result<
    (Option<String>, Option<Vec<u8>>),
    TspError,
>)
    ensures
        match (r, status_fields(body@, None, None)) {
            (Ok((t, f)), Ok((u, g))) => opt_view(t) == u && opt_view(f) == g,
            (Err(e), Err(f)) => e == f,
            _ => false,
        },
{
    let mut pos: &[u8] = body;
    let mut text: Option<String> = None;
    let mut failure: Option<Vec<u8>> = None;
    while pos.len() != 0
        invariant
            status_fields(pos@, opt_view(text), opt_view(failure)) == status_fields(
                body@,
                None,
                None,
            ),
        decreases pos.len(),
    {
        let tag: u8 = pos[0];
        proof {
            lemma_field_shrinks(pos@, tag, "PKIStatusInfo field");
        }
        let (contents, rest) = parse_tst_field(pos, tag, "PKIStatusInfo field")?;
        if tag == 0x30 {
            if text.is_some() || failure.is_some() {
                return Err(
                    TspError::InvalidResponse(
                        Fault::Text("PKIStatusInfo: duplicate or out-of-order statusString"),
                    ),
                );
            }
            if contents.len() == 0 {
                return Err(
                    TspError::InvalidResponse(
                        Fault::Text(
                            "statusString PKIFreeText SEQUENCE is empty (violates SIZE (1..MAX))",
                        ),
                    ),
                );
            }
            text = parse_free_text(contents)?;
        } else if tag == 0x03 {
            if failure.is_some() {
                return Err(
                    TspError::InvalidResponse(
                        Fault::Text("PKIStatusInfo: duplicate failureInfo"),
                    ),
                );
            }
            match decode_bit_string(contents) {
                None => return Err(
                    TspError::InvalidResponse(Fault::Malformed("PKIStatusInfo failureInfo")),
                ),
                Some((unused, octets)) => {
                    if has_nonzero_padding(unused, octets) {
                        return Err(
                            TspError::InvalidResponse(
                                Fault::Text("PKIStatusInfo failureInfo: nonzero unused bits"),
                            ),
                        );
                    }
                },
            }
            failure = Some(to_vec(contents));
        } else {
            return Err(
                TspError::InvalidResponse(Fault::Tag("PKIStatusInfo: unexpected field ", tag)),
            );
        }
        pos = rest;
    }
    Ok((text, failure))
}

/// The token that follows a PKIStatusInfo. Only a status that is a success may be
/// followed by one.
pub open spec fn response_token(rest: Seq<u8>, status: PkiStatus) -> Result<
    Option<Seq<u8>>,
    TspError,
> {
    if rest.len() == 0 {
        Ok(None)
    } else {
        match tst_field(rest, 0x30, "TimeStampToken SEQUENCE") {
            Err(e) => Err(e),
            Ok((_, after)) => if after.len() != 0 {
                invalid(Fault::Text("trailing data after TimeStampToken in TimeStampResp"))
            } else if !status.success() {
                invalid(Fault::Text("TimeStampToken present despite failure status"))
            } else {
                Ok(Some(rest))
            },
        }
    }
}

/// The TimeStampResp that `s` encodes.
pub open spec fn timestamp_response(s: Seq<u8>) -> Result<TimeStampRespView, TspError> {
    match tst_field(s, 0x30, "TimeStampResp") {
        Err(e) => Err(e),
        Ok((response, trailing)) => if trailing.len() != 0 {
            invalid(Fault::Text("trailing data after TimeStampResp"))
        } else {
            match tst_field(response, 0x30, "PKIStatusInfo") {
                Err(e) => Err(e),
                Ok((info, rest)) => match tst_field(info, 0x02, "PKIStatus") {
                    Err(e) => Err(e),
                    Ok((code, fields)) => match uint_within(code, u64::MAX as nat) {
                        None => invalid(Fault::Malformed("PKIStatus")),
                        Some(v) => match status_fields(fields, None, None) {
                            Err(e) => Err(e),
                            Ok((status_string, failure_info)) => match response_token(
                                rest,
                                status_of_code(v as u64),
                            ) {
                                Err(e) => Err(e),
                                Ok(token_der) => Ok(
                                    TimeStampRespView {
                                        status: status_of_code(v as u64),
                                        status_string,
                                        failure_info,
                                        token_der,
                                    },
                                ),
                            },
                        },
                    },
                },
            }
        },
    }
}

/// Parses a TimeStampResp.
pub fn parse_timestamp_response(der_bytes: &[u8]) -> (r: Result<TimeStampResp, TspError>)
    ensures
        agrees(r, timestamp_response(der_bytes@)),
{
    let (response, trailing) = parse_tst_field(der_bytes, 0x30, "TimeStampResp")?;
    if trailing.len() != 0 {
        return Err(TspError::InvalidResponse(Fault::Text("trailing data after TimeStampResp")));
    }
    let (info, rest) = parse_tst_field(response, 0x30, "PKIStatusInfo")?;
    let (code, fields) = parse_tst_field(info, 0x02, "PKIStatus")?;
    let status = match decode_u64(code) {
        None => return Err(TspError::InvalidResponse(Fault::Malformed("PKIStatus"))),
        Some(v) => PkiStatus::from_u64(v),
    };
    let (status_string, failure_info) = parse_status_fields(fields)?;
    let token_der: Option<Vec<u8>> = if rest.len() == 0 {
        None
    } else {
        let (_, after) = parse_tst_field(rest, 0x30, "TimeStampToken SEQUENCE")?;
        if after.len() != 0 {
            return Err(
                TspError::InvalidResponse(
                    Fault::Text("trailing data after TimeStampToken in TimeStampResp"),
                ),
            );
        }
        if !status.is_success() {
            return Err(
                TspError::InvalidResponse(
                    Fault::Text("TimeStampToken present despite failure status"),
                ),
            );
        }
        Some(to_vec(rest))
    };
    Ok(TimeStampResp { status, status_string, failure_info, token_der })
}

/// A response that is read carries a token only where its status is a success.
pub proof fn law_token_means_success(s: Seq<u8>)
    ensures
        timestamp_response(s) matches Ok(r) ==> (r.token_der is Some ==> r.status.success()),
{
}

/// A failure is the last field of a status: where one came before, the optional
/// fields are accepted only if none follows.
pub proof fn law_nothing_after_failure(s: Seq<u8>, text: Option<Seq<char>>, failure: Seq<u8>)
    requires
        status_fields(s, text, Some(failure)) is Ok,
    ensures
        s.len() == 0,
{
}

/// The AlgorithmIdentifier of a hash algorithm, without parameters.
pub open spec fn hash_identifier(alg: DigestAlgorithm) -> Seq<u8> {
    tlv_bytes(0x30, tlv_bytes(0x06, digest_oid(alg)))
}

/// The AlgorithmIdentifier of a hash algorithm, without parameters.
pub fn digest_algorithm_identifier(alg: DigestAlgorithm) -> (r: Vec<u8>)
    ensures
        r@ == hash_identifier(alg),
{
    let oid: Vec<u8> = alg.oid();
    let oid_der: Vec<u8> = encode_tlv(0x06, oid.as_slice());
    encode_tlv(0x30, oid_der.as_slice())
}

/// The MessageImprint of a hash.
pub open spec fn imprint_bytes(alg: DigestAlgorithm, hash: Seq<u8>) -> Seq<u8> {
    tlv_bytes(0x30, hash_identifier(alg) + tlv_bytes(0x04, hash))
}

/// The body of a TimeStampReq: version, imprint, policy, nonce and certificate
/// request, the last three where they are asked for.
pub open spec fn request_body(
    alg: DigestAlgorithm,
    hash: Seq<u8>,
    policy: Option<Seq<u8>>,
    nonce: Option<u64>,
    cert_req: bool,
) -> Seq<u8> {
    tlv_bytes(0x02, integer_contents(1)) + imprint_bytes(alg, hash) + (match policy {
        Some(oid) => tlv_bytes(0x06, oid),
        None => Seq::<u8>::empty(),
    }) + (match nonce {
        Some(n) => tlv_bytes(0x02, integer_contents(n as nat)),
        None => Seq::<u8>::empty(),
    }) + (if cert_req {
        tlv_bytes(0x01, seq![0xFFu8])
    } else {
        Seq::<u8>::empty()
    })
}

/// Builds a TimeStampReq. It fails exactly where the hash is too long to encode.
pub fn build_timestamp_request(
    digest_algorithm: DigestAlgorithm,
    message_hash: &[u8],
    policy_oid: Option<&Oid>,
    nonce: Option<u64>,
    cert_req: bool,
) -> (r: Result<Vec<u8>, TspError>)
    ensures
        agrees(
            r,
            if message_hash@.len() > MAX_DER_LENGTH {
                invalid(Fault::Text("failed to create hash octet string"))
            } else if tlv_bytes(0x04, message_hash@).len() > MAX_DER_LENGTH {
                invalid(Fault::Text("failed to encode hash"))
            } else {
                Ok(
                    tlv_bytes(
                        0x30,
                        request_body(
                            digest_algorithm,
                            message_hash@,
                            opt_view(policy_oid),
                            nonce,
                            cert_req,
                        ),
                    ),
                )
            },
        ),
{
    if message_hash.len() > MAX_DER_LENGTH {
        return Err(TspError::InvalidResponse(Fault::Text("failed to create hash octet string")));
    }
    let hashed: Vec<u8> = encode_tlv(0x04, message_hash);
    if hashed.len() > MAX_DER_LENGTH {
        return Err(TspError::InvalidResponse(Fault::Text("failed to encode hash")));
    }
    let mut imprint: Vec<u8> = digest_algorithm_identifier(digest_algorithm);
    imprint.extend_from_slice(hashed.as_slice());
    let imprint_der: Vec<u8> = encode_sequence_raw(imprint.as_slice());
    let mut body: Vec<u8> = encode_integer_u64(1);
    body.extend_from_slice(imprint_der.as_slice());
    match policy_oid {
        Some(oid) => {
            let part: Vec<u8> = encode_tlv(0x06, oid.as_bytes());
            body.extend_from_slice(part.as_slice());
        },
        None => {},
    }
    match nonce {
        Some(n) => {
            let part: Vec<u8> = encode_integer_u64(n);
            body.extend_from_slice(part.as_slice());
        },
        None => {},
    }
    if cert_req {
        let part: Vec<u8> = encode_boolean(true);
        body.extend_from_slice(part.as_slice());
    }
    assert(body@ =~= request_body(
        digest_algorithm,
        message_hash@,
        opt_view(policy_oid),
        nonce,
        cert_req,
    ));
    Ok(encode_sequence_raw(body.as_slice()))
}

/// A request that was built starts with version 1, and its imprint carries the
/// identifier of the hash algorithm and then the hash, with nothing after it.
pub proof fn law_request_fields(
    alg: DigestAlgorithm,
    hash: Seq<u8>,
    policy: Option<Seq<u8>>,
    nonce: Option<u64>,
    cert_req: bool,
)
    requires
        imprint_bytes(alg, hash).len() <= MAX_DER_LENGTH,
    ensures
        ({
            let body = request_body(alg, hash, policy, nonce, cert_req);
            let after_version = body.skip(tlv_bytes(0x02, integer_contents(1)).len() as int);
            let imprint = hash_identifier(alg) + tlv_bytes(0x04, hash);
            &&& tlv(body) matches Ok((tag, version, rest)) && tag == 0x02 && version
                == integer_contents(1) && rest == after_version
            &&& tlv(after_version) matches Ok((tag, contents, _)) && tag == 0x30 && contents
                == imprint
            &&& tlv(imprint) matches Ok((tag, oid, rest)) && tag == 0x30 && oid == tlv_bytes(
                0x06,
                digest_oid(alg),
            ) && rest == tlv_bytes(0x04, hash)
            &&& tlv(tlv_bytes(0x04, hash)) matches Ok((tag, contents, rest)) && tag == 0x04
                && contents == hash && rest.len() == 0
        }),
{
    let body = request_body(alg, hash, policy, nonce, cert_req);
    let version = tlv_bytes(0x02, integer_contents(1));
    let after_version = body.skip(version.len() as int);
    let imprint = hash_identifier(alg) + tlv_bytes(0x04, hash);
    let after_imprint = after_version.skip(imprint_bytes(alg, hash).len() as int);
    crate::der_utils::law_integer_contents(1);
    assert(crate::bytes::be_bytes(1) =~= seq![1u8]);
    assert(body =~= version + after_version);
    law_tlv_round_trip(0x02, integer_contents(1), after_version);
    assert(after_version =~= tlv_bytes(0x30, imprint) + after_imprint);
    law_tlv_round_trip(0x30, imprint, after_imprint);
    assert(digest_oid(alg).len() == 9);
    law_tlv_round_trip(0x30, tlv_bytes(0x06, digest_oid(alg)), tlv_bytes(0x04, hash));
    law_tlv_round_trip(0x04, hash, Seq::empty());
    assert(tlv_bytes(0x04, hash) + Seq::<u8>::empty() =~= tlv_bytes(0x04, hash));
}

/// The identifier of a hash algorithm is read back.
proof fn lemma_hash_identifier(alg: DigestAlgorithm)
    ensures
        algorithm_id_of(hash_identifier(alg)) == Some(
            AlgorithmIdView { oid: digest_oid(alg), parameters: None },
        ),
        digest_from_oid(digest_oid(alg)) == Some(alg),
{
    let oid = digest_oid(alg);
    let body = tlv_bytes(0x06, oid);
    let none = Seq::<u8>::empty();
    crate::crypto::algorithm::law_digest_oid(alg, oid);
    law_tlv_round_trip(0x06, oid, none);
    law_tlv_round_trip(0x30, body, none);
    assert(body + none =~= body);
    assert(tlv_bytes(0x30, body) + none =~= tlv_bytes(0x30, body));
    reveal(algorithm_id_of);
    assert(oid_valid(oid)) by {
        reveal(oid_valid);
        reveal_with_fuel(whole_arcs, 10);
    }
}

/// An imprint that is echoed as a request writes it is read back.
pub proof fn law_imprint_read_back(alg: DigestAlgorithm, hash: Seq<u8>)
    requires
        hash.len() == digest_size(alg),
    ensures
        message_imprint(hash_identifier(alg) + tlv_bytes(0x04, hash)) == Ok::<
            (DigestAlgorithm, Seq<u8>),
            TspError,
        >((alg, hash)),
{
    let none = Seq::<u8>::empty();
    let oid = tlv_bytes(0x06, digest_oid(alg));
    lemma_hash_identifier(alg);
    assert(digest_oid(alg).len() == 9);
    law_field_round_trip(0x30, oid, tlv_bytes(0x04, hash), "messageImprint hashAlgorithm");
    law_field_round_trip(0x04, hash, none, "messageImprint hashedMessage");
    assert(tlv_bytes(0x04, hash) + none =~= tlv_bytes(0x04, hash));
}

/// The number that eight bytes write in the byte order of the machine.
pub fn nonce_from_bytes(bytes: &[u8]) -> (r: u64)
    requires
        bytes.len() == 8,
    ensures
        is_native_value(r, bytes@),
{
    native_u64(bytes)
}

/// A random nonce for a request. It fails only where the backend gives no
/// random bytes; what the number is is left to chance.
pub fn generate_nonce() -> (r: Result<u64, TspError>)
    ensures
        r matches Err(e) ==> e == TspError::Crypto,
{
    match random_bytes(8) {
        None => Err(TspError::Crypto),
        Some(bytes) => Ok(nonce_from_bytes(bytes.as_slice())),
    }
}

} // verus!
