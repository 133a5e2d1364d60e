//! TSTInfo: what a timestamp token attests.

use vstd::prelude::*;

use crate::asn1::{
    decode_algorithm_id, decode_bool, decode_extension, decode_u16, decode_u64, decodes_as_int,
    decodes_as_uint, is_oid, oid_to_text,
};
use crate::bytes::{bytes_equal, contains_bytes, to_vec};
use crate::crypto::algorithm::DigestAlgorithm;
use crate::der_utils::{encode_tlv, parse_tlv_with_rest};
use crate::error::{Fault, TspError};
use crate::tsp::field::parse_tst_field;
#[allow(unused_imports)]
use crate::agrees;
#[allow(unused_imports)]
use crate::asn1::{
    algorithm_id_of, extension_of, int_canonical, oid_text, oid_valid, uint_canonical, uint_within,
    MAX_DER_LENGTH,
};
#[allow(unused_imports)]
use crate::bytes::views;
#[allow(unused_imports)]
use crate::crypto::algorithm::{digest_from_oid, digest_size};
#[allow(unused_imports)]
use crate::der_utils::{
    integer_contents, law_integer_contents, lemma_be_len_u64, tlv, tlv_bytes,
};
#[allow(unused_imports)]
use crate::opt_view;
#[allow(unused_imports)]
use crate::tsp::field::{
    law_field_round_trip, lemma_field_errors, lemma_field_shrinks, tst_field,
};

verus! {

/// The NULL element, in which hash parameters may be written.
pub const DER_NULL: [u8; 2] = [0x05, 0x00];

/// What a timestamp token attests.
#[derive(Debug)]
pub struct TstInfo {
    /// The hash algorithm of the message imprint.
    pub hash_algorithm: DigestAlgorithm,
    /// The hash of the message.
    pub message_hash: Vec<u8>,
    /// The contents of the serial number.
    pub serial_number: Vec<u8>,
    /// The contents of the GeneralizedTime.
    pub gen_time_der: Vec<u8>,
    /// The nonce of the request.
    pub nonce: Option<u64>,
    /// The policy, in dotted form.
    pub policy_oid: Option<String>,
}

/// What a [`TstInfo`] holds.
#[verifier::ext_equal]
pub struct TstInfoView {
    pub hash_algorithm: DigestAlgorithm,
    pub message_hash: Seq<u8>,
    pub serial_number: Seq<u8>,
    pub gen_time_der: Seq<u8>,
    pub nonce: Option<u64>,
    pub policy_oid: Option<Seq<char>>,
}

impl View for TstInfo {
    type V = TstInfoView;

    open spec fn view(&self) -> TstInfoView {
        TstInfoView {
            hash_algorithm: self.hash_algorithm,
            message_hash: self.message_hash@,
            serial_number: self.serial_number@,
            gen_time_der: self.gen_time_der@,
            nonce: self.nonce,
            policy_oid: opt_view(self.policy_oid),
        }
    }
}

/// An `InvalidResponse` error.
pub open spec fn invalid<T>(fault: Fault) -> Result<T, TspError> {
    Err(TspError::InvalidResponse(fault))
}

/// The hash algorithm and the hash of a MessageImprint body.
pub open spec fn message_imprint(body: Seq<u8>) -> Result<(DigestAlgorithm, Seq<u8>), TspError> {
    match tst_field(body, 0x30, "messageImprint hashAlgorithm") {
        Err(e) => Err(e),
        Ok((contents, rest)) => match algorithm_id_of(tlv_bytes(0x30, contents)) {
            None => invalid(Fault::Malformed("messageImprint hashAlgorithm")),
            Some(alg) => match digest_from_oid(alg.oid) {
                None => invalid(Fault::Text("unsupported hash algorithm OID")),
                Some(digest) => if alg.parameters is Some && alg.parameters->0 != DER_NULL@ {
                    invalid(
                        Fault::Text("messageImprint hashAlgorithm parameters must be absent or NULL"),
                    )
                } else {
                    match tst_field(rest, 0x04, "messageImprint hashedMessage") {
                        Err(e) => Err(e),
                        Ok((hash, trailing)) => if trailing.len() != 0 {
                            invalid(Fault::Text("messageImprint: trailing data after hashedMessage"))
                        } else if hash.len() != digest_size(digest) {
                            invalid(Fault::HashLength(digest, hash.len() as usize))
                        } else {
                            Ok((digest, hash))
                        },
                    }
                },
            },
        },
    }
}

/// Parses the body of a MessageImprint.
pub fn parse_message_imprint(body: &[u8]) -> (r: Result<(DigestAlgorithm, Vec<u8>), TspError>)
    ensures
        match (r, message_imprint(body@)) {
            (Ok((alg, hash)), Ok((a, h))) => alg == a && hash@ == h,
            (Err(e), Err(f)) => e == f,
            _ => false,
        },
{
    let (contents, rest) = parse_tst_field(body, 0x30, "messageImprint hashAlgorithm")?;
    let element: Vec<u8> = encode_tlv(0x30, contents);
    let alg = match decode_algorithm_id(element.as_slice()) {
        None => return Err(
            TspError::InvalidResponse(Fault::Malformed("messageImprint hashAlgorithm")),
        ),
        Some(a) => a,
    };
    let digest = match DigestAlgorithm::from_oid(alg.oid.as_slice()) {
        None => return Err(
            TspError::InvalidResponse(Fault::Text("unsupported hash algorithm OID")),
        ),
        Some(d) => d,
    };
    match &alg.parameters {
        Some(p) => {
            if !bytes_equal(p.as_slice(), DER_NULL.as_slice()) {
                return Err(
                    TspError::InvalidResponse(
                        Fault::Text(
                            "messageImprint hashAlgorithm parameters must be absent or NULL",
                        ),
                    ),
                );
            }
        },
        None => {},
    }
    let (hash, trailing) = parse_tst_field(rest, 0x04, "messageImprint hashedMessage")?;
    if trailing.len() != 0 {
        return Err(
            TspError::InvalidResponse(
                Fault::Text("messageImprint: trailing data after hashedMessage"),
            ),
        );
    }
    if hash.len() != digest.output_size() {
        return Err(TspError::InvalidResponse(Fault::HashLength(digest, hash.len())));
    }
    Ok((digest, to_vec(hash)))
}

/// The place of an Accuracy component among its siblings; zero for no component.
pub open spec fn accuracy_rank(tag: u8) -> nat {
    match tag {
        0x02 => 1,
        0x80 => 2,
        0x81 => 3,
        _ => 0,
    }
}

/// The components of an Accuracy: each at most once, in order, after one of rank
/// `last`; whole seconds, and thousandths from 1 to 999.
pub open spec fn tst_accuracy(s: Seq<u8>, last: nat) -> Result<(), TspError>
    decreases s.len(),
{
    if s.len() == 0 {
        Ok(())
    } else if accuracy_rank(s[0]) == 0 {
        invalid(Fault::Tag("TSTInfo accuracy: unexpected field ", s[0]))
    } else if accuracy_rank(s[0]) <= last {
        invalid(Fault::Text("TSTInfo accuracy: duplicate or out-of-order component"))
    } else {
        proof {
            lemma_field_shrinks(s, s[0], "TSTInfo accuracy");
        }
        match tst_field(s, s[0], "TSTInfo accuracy") {
            Err(e) => Err(e),
            Ok((contents, rest)) => if accuracy_rank(s[0]) == 1 {
                if uint_canonical(contents) && contents.len() <= MAX_DER_LENGTH {
                    tst_accuracy(rest, 1)
                } else {
                    invalid(Fault::Malformed("TSTInfo accuracy seconds"))
                }
            } else {
                match uint_within(contents, u16::MAX as nat) {
                    None => invalid(Fault::Malformed("TSTInfo accuracy millis/micros")),
                    Some(n) => if 1 <= n <= 999 {
                        tst_accuracy(rest, accuracy_rank(s[0]))
                    } else {
                        invalid(Fault::Text("TSTInfo accuracy millis/micros must be in 1..=999"))
                    },
                }
            },
        }
    }
}

/// Checks the body of an Accuracy.
pub fn validate_tst_accuracy(body: &[u8]) -> (r: Result<(), TspError>)
    ensures
        r == tst_accuracy(body@, 0),
{
    let mut pos: &[u8] = body;
    let mut last: u8 = 0;
    while pos.len() != 0
        invariant
            tst_accuracy(pos@, last as nat) == tst_accuracy(body@, 0),
        decreases pos.len(),
    {
        let tag: u8 = pos[0];
        let rank: u8 = match tag {
            0x02 => 1,
            0x80 => 2,
            0x81 => 3,
            _ => return Err(
                TspError::InvalidResponse(Fault::Tag("TSTInfo accuracy: unexpected field ", tag)),
            ),
        };
        if rank <= last {
            return Err(
                TspError::InvalidResponse(
                    Fault::Text("TSTInfo accuracy: duplicate or out-of-order component"),
                ),
            );
        }
        proof {
            lemma_field_shrinks(pos@, tag, "TSTInfo accuracy");
        }
        let (contents, rest) = parse_tst_field(pos, tag, "TSTInfo accuracy")?;
        if rank == 1 {
            if !decodes_as_uint(contents) {
                return Err(TspError::InvalidResponse(Fault::Malformed("TSTInfo accuracy seconds")));
            }
        } else {
            match decode_u16(contents) {
                None => return Err(
                    TspError::InvalidResponse(Fault::Malformed("TSTInfo accuracy millis/micros")),
                ),
                Some(n) => {
                    if n < 1 || n > 999 {
                        return Err(
                            TspError::InvalidResponse(
                                Fault::Text("TSTInfo accuracy millis/micros must be in 1..=999"),
                            ),
                        );
                    }
                },
            }
        }
        last = rank;
        pos = rest;
    }
    Ok(())
}

/// The tags of the alternatives of GeneralName.
pub open spec fn is_general_name_tag(tag: u8) -> bool {
    tag == 0xA0 || tag == 0x81 || tag == 0x82 || tag == 0xA3 || tag == 0xA4 || tag == 0xA5 || tag
        == 0x86 || tag == 0x87 || tag == 0x88
}

/// The tsa field holds exactly one element tagged as a GeneralName.
pub open spec fn tst_tsa_name(body: Seq<u8>) -> Result<(), TspError> {
    if body.len() == 0 {
        invalid(Fault::Text("TSTInfo tsa: missing GeneralName"))
    } else if !is_general_name_tag(body[0]) {
        invalid(Fault::Tag("TSTInfo tsa: invalid GeneralName tag ", body[0]))
    } else {
        match tst_field(body, body[0], "TSTInfo tsa GeneralName") {
            Err(e) => Err(e),
            Ok((_, rest)) => if rest.len() != 0 {
                invalid(Fault::Text("TSTInfo tsa: trailing data after GeneralName"))
            } else {
                Ok(())
            },
        }
    }
}

/// Checks that the tsa field holds exactly one element tagged as a GeneralName.
pub fn validate_tst_tsa_name(body: &[u8]) -> (r: Result<(), TspError>)
    ensures
        r == tst_tsa_name(body@),
{
    if body.len() == 0 {
        return Err(TspError::InvalidResponse(Fault::Text("TSTInfo tsa: missing GeneralName")));
    }
    let tag: u8 = body[0];
    if !(tag == 0xA0 || tag == 0x81 || tag == 0x82 || tag == 0xA3 || tag == 0xA4 || tag == 0xA5
        || tag == 0x86 || tag == 0x87 || tag == 0x88) {
        return Err(
            TspError::InvalidResponse(Fault::Tag("TSTInfo tsa: invalid GeneralName tag ", tag)),
        );
    }
    let (_, rest) = parse_tst_field(body, tag, "TSTInfo tsa GeneralName")?;
    if rest.len() != 0 {
        return Err(
            TspError::InvalidResponse(Fault::Text("TSTInfo tsa: trailing data after GeneralName")),
        );
    }
    Ok(())
}

/// A list of Extension elements, none critical and none with an identifier that
/// is among `seen` or occurs before it.
pub open spec fn tst_extension_list(s: Seq<u8>, seen: Seq<Seq<u8>>) -> Result<(), TspError>
    decreases s.len(),
{
    if s.len() == 0 {
        Ok(())
    } else {
        proof {
            lemma_field_shrinks(s, 0x30, "TSTInfo extension");
        }
        match tst_field(s, 0x30, "TSTInfo extension") {
            Err(e) => Err(e),
            Ok((contents, rest)) => match extension_of(tlv_bytes(0x30, contents)) {
                None => invalid(Fault::Malformed("TSTInfo extension")),
                Some(ext) => if seen.contains(ext.extn_id) {
                    invalid(Fault::Text("TSTInfo extension: duplicate OID"))
                } else if ext.critical {
                    invalid(Fault::Text("TSTInfo extension: unsupported critical extension"))
                } else {
                    tst_extension_list(rest, seen.push(ext.extn_id))
                },
            },
        }
    }
}

/// The extensions field: at least one extension, none critical, none twice.
pub open spec fn tst_extensions(body: Seq<u8>) -> Result<(), TspError> {
    if body.len() == 0 {
        invalid(Fault::Text("TSTInfo extensions: empty Extensions"))
    } else {
        tst_extension_list(body, Seq::empty())
    }
}

/// Checks the body of the extensions field.
pub fn validate_tst_extensions(body: &[u8]) -> (r: Result<(), TspError>)
    ensures
        r == tst_extensions(body@),
{
    if body.len() == 0 {
        return Err(TspError::InvalidResponse(Fault::Text("TSTInfo extensions: empty Extensions")));
    }
    let mut seen: Vec<Vec<u8>> = Vec::new();
    let mut pos: &[u8] = body;
    assert(views(seen@) =~= Seq::<Seq<u8>>::empty());
    while pos.len() != 0
        invariant
            tst_extension_list(pos@, views(seen@)) == tst_extension_list(body@, Seq::empty()),
        decreases pos.len(),
    {
        proof {
            lemma_field_shrinks(pos@, 0x30, "TSTInfo extension");
        }
        let (contents, rest) = parse_tst_field(pos, 0x30, "TSTInfo extension")?;
        let element: Vec<u8> = encode_tlv(0x30, contents);
        let ext = match decode_extension(element.as_slice()) {
            None => return Err(TspError::InvalidResponse(Fault::Malformed("TSTInfo extension"))),
            Some(e) => e,
        };
        if contains_bytes(&seen, ext.extn_id.as_slice()) {
            return Err(TspError::InvalidResponse(Fault::Text("TSTInfo extension: duplicate OID")));
        }
        if ext.critical {
            return Err(
                TspError::InvalidResponse(
                    Fault::Text("TSTInfo extension: unsupported critical extension"),
                ),
            );
        }
        let ghost before = views(seen@);
        seen.push(ext.extn_id);
        assert(views(seen@) =~= before.push(ext@.extn_id));
        pos = rest;
    }
    Ok(())
}

/// The place of an optional TSTInfo field among its siblings; zero for no field.
pub open spec fn optional_rank(tag: u8) -> nat {
    match tag {
        0x30 => 1,
        0x01 => 2,
        0x02 => 3,
        0xA0 => 4,
        0xA1 => 5,
        _ => 0,
    }
}

/// The name of an optional TSTInfo field.
pub open spec fn optional_context(tag: u8) -> &'static str {
    match tag {
        0x30 => "TSTInfo accuracy",
        0x01 => "TSTInfo ordering",
        0x02 => "TSTInfo nonce",
        0xA0 => "TSTInfo tsa",
        _ => "TSTInfo extensions",
    }
}

/// The contents of one optional field are acceptable.
pub open spec fn optional_check(tag: u8, contents: Seq<u8>) -> Result<(), TspError> {
    match tag {
        0x30 => tst_accuracy(contents, 0),
        0x01 => if contents == seq![0x00u8] || contents == seq![0xFFu8] {
            Ok(())
        } else {
            invalid(Fault::Malformed("TSTInfo ordering"))
        },
        0x02 => if uint_within(contents, u64::MAX as nat) is Some {
            Ok(())
        } else {
            invalid(Fault::Malformed("TSTInfo nonce"))
        },
        0xA0 => tst_tsa_name(contents),
        _ => tst_extensions(contents),
    }
}

/// The optional fields of a TSTInfo: each at most once, in order, after one of
/// rank `last`. The value is the nonce, `nonce` where the fields hold none.
pub open spec fn tst_optional(s: Seq<u8>, last: nat, nonce: Option<u64>) -> Result<
    Option<u64>,
    TspError,
>
    decreases s.len(),
{
    if s.len() == 0 {
        Ok(nonce)
    } else if optional_rank(s[0]) == 0 {
        invalid(Fault::Tag("TSTInfo: unexpected optional field ", s[0]))
    } else if optional_rank(s[0]) <= last {
        invalid(Fault::Order(optional_context(s[0])))
    } else {
        proof {
            lemma_field_shrinks(s, s[0], optional_context(s[0]));
        }
        match tst_field(s, s[0], optional_context(s[0])) {
            Err(e) => Err(e),
            Ok((contents, rest)) => match optional_check(s[0], contents) {
                Err(e) => Err(e),
                Ok(()) => tst_optional(
                    rest,
                    optional_rank(s[0]),
                    if s[0] == 0x02 {
                        Some(uint_within(contents, u64::MAX as nat)->0 as u64)
                    } else {
                        nonce
                    },
                ),
            },
        }
    }
}

/// Parses the optional fields of a TSTInfo; returns the nonce.
pub fn parse_tst_optional(body: &[u8]) -> (r: Result<Option<u64>, TspError>)
    ensures
        r == tst_optional(body@, 0, None),
{
    let mut pos: &[u8] = body;
    let mut last: u8 = 0;
    let mut nonce: Option<u64> = None;
    while pos.len() != 0
        invariant
            tst_optional(pos@, last as nat, nonce) == tst_optional(body@, 0, None),
        decreases pos.len(),
    {
        let tag: u8 = pos[0];
        let (rank, context): (u8, &'static str) = match tag {
            0x30 => (1, "TSTInfo accuracy"),
            0x01 => (2, "TSTInfo ordering"),
            0x02 => (3, "TSTInfo nonce"),
            0xA0 => (4, "TSTInfo tsa"),
            0xA1 => (5, "TSTInfo extensions"),
            _ => return Err(
                TspError::InvalidResponse(Fault::Tag("TSTInfo: unexpected optional field ", tag)),
            ),
        };
        if rank <= last {
            return Err(TspError::InvalidResponse(Fault::Order(context)));
        }
        proof {
            lemma_field_shrinks(pos@, tag, context);
        }
        let (contents, rest) = parse_tst_field(pos, tag, context)?;
        if rank == 1 {
            validate_tst_accuracy(contents)?;
        } else if rank == 2 {
            if decode_bool(contents).is_none() {
                return Err(TspError::InvalidResponse(Fault::Malformed("TSTInfo ordering")));
            }
        } else if rank == 3 {
            match decode_u64(contents) {
                None => return Err(TspError::InvalidResponse(Fault::Malformed("TSTInfo nonce"))),
                Some(n) => {
                    nonce = Some(n);
                },
            }
        } else if rank == 4 {
            validate_tst_tsa_name(contents)?;
        } else {
            validate_tst_extensions(contents)?;
        }
        last = rank;
        pos = rest;
    }
    Ok(nonce)
}

/// A nonce that is echoed as a request writes it is read back.
pub proof fn law_nonce_read_back(nonce: u64)
    ensures
        tst_optional(tlv_bytes(0x02, integer_contents(nonce as nat)), 0, None) == Ok::<
            Option<u64>,
            TspError,
        >(Some(nonce)),
{
    let contents = integer_contents(nonce as nat);
    let s = tlv_bytes(0x02, contents);
    law_integer_contents(nonce as nat);
    lemma_be_len_u64(nonce);
    assert(contents.len() <= 9);
    assert(s.len() <= 20 && s[0] == 0x02);
    law_field_round_trip(0x02, contents, Seq::empty(), "TSTInfo nonce");
    assert(s + Seq::<u8>::empty() =~= s);
    reveal_with_fuel(tst_optional, 2);
}

/// The fields of a TSTInfo SEQUENCE, in order.
pub open spec fn tst_info_fields(s: Seq<u8>) -> Result<TstInfoView, TspError> {
    match tst_field(s, 0x02, "TSTInfo version") {
        Err(e) => Err(e),
        Ok((version, s1)) => match uint_within(version, u64::MAX as nat) {
            None => invalid(Fault::Malformed("TSTInfo version")),
            Some(v) => if v != 1 {
                invalid(Fault::Version(v as u64))
            } else {
                match tst_field(s1, 0x06, "TSTInfo policy") {
                    Err(e) => Err(e),
                    Ok((policy, s2)) => if !oid_valid(policy) {
                        invalid(Fault::Malformed("TSTInfo policy"))
                    } else {
                        tst_info_tail(s2, oid_text(policy))
                    },
                }
            },
        },
    }
}

/// The fields of a TSTInfo from the message imprint on.
pub open spec fn tst_info_tail(s: Seq<u8>, policy: Seq<char>) -> Result<TstInfoView, TspError> {
    match tst_field(s, 0x30, "TSTInfo messageImprint") {
        Err(e) => Err(e),
        Ok((imprint, s1)) => match message_imprint(imprint) {
            Err(e) => Err(e),
            Ok((hash_algorithm, message_hash)) => match tst_field(
                s1,
                0x02,
                "TSTInfo serialNumber",
            ) {
                Err(e) => Err(e),
                Ok((serial, s2)) => if !(int_canonical(serial) && serial.len()
                    <= MAX_DER_LENGTH) {
                    invalid(Fault::Malformed("TSTInfo serialNumber"))
                } else {
                    match tst_field(s2, 0x18, "TSTInfo genTime") {
                        Err(e) => Err(e),
                        Ok((gen_time, s3)) => match tst_optional(s3, 0, None) {
                            Err(e) => Err(e),
                            Ok(nonce) => Ok(
                                TstInfoView {
                                    hash_algorithm,
                                    message_hash,
                                    serial_number: serial,
                                    gen_time_der: gen_time,
                                    nonce,
                                    policy_oid: Some(policy),
                                },
                            ),
                        },
                    }
                },
            },
        },
    }
}

/// The TSTInfo that `s` encodes.
pub open spec fn tst_info(s: Seq<u8>) -> Result<TstInfoView, TspError> {
    match tst_field(s, 0x30, "TSTInfo") {
        Err(e) => Err(e),
        Ok((sequence, trailing)) => if trailing.len() != 0 {
            invalid(Fault::Text("TSTInfo: trailing data after SEQUENCE"))
        } else {
            tst_info_fields(sequence)
        },
    }
}

/// Parses a TSTInfo.
pub fn parse_tst_info_body(der_bytes: &[u8]) -> (r: Result<TstInfo, TspError>)
    ensures
        agrees(r, tst_info(der_bytes@)),
{
    let (sequence, trailing) = parse_tst_field(der_bytes, 0x30, "TSTInfo")?;
    if trailing.len() != 0 {
        return Err(
            TspError::InvalidResponse(Fault::Text("TSTInfo: trailing data after SEQUENCE")),
        );
    }
    let (version, s1) = parse_tst_field(sequence, 0x02, "TSTInfo version")?;
    match decode_u64(version) {
        None => return Err(TspError::InvalidResponse(Fault::Malformed("TSTInfo version"))),
        Some(v) => {
            if v != 1 {
                return Err(TspError::InvalidResponse(Fault::Version(v)));
            }
        },
    }
    let (policy, s2) = parse_tst_field(s1, 0x06, "TSTInfo policy")?;
    if !is_oid(policy) {
        return Err(TspError::InvalidResponse(Fault::Malformed("TSTInfo policy")));
    }
    let policy_oid: Option<String> = Some(oid_to_text(policy));
    let (imprint, s3) = parse_tst_field(s2, 0x30, "TSTInfo messageImprint")?;
    let (hash_algorithm, message_hash) = parse_message_imprint(imprint)?;
    let (serial, s4) = parse_tst_field(s3, 0x02, "TSTInfo serialNumber")?;
    if !decodes_as_int(serial) {
        return Err(TspError::InvalidResponse(Fault::Malformed("TSTInfo serialNumber")));
    }
    let (gen_time, s5) = parse_tst_field(s4, 0x18, "TSTInfo genTime")?;
    let nonce: Option<u64> = parse_tst_optional(s5)?;
    Ok(
        TstInfo {
            hash_algorithm,
            message_hash,
            serial_number: to_vec(serial),
            gen_time_der: to_vec(gen_time),
            nonce,
            policy_oid,
        },
    )
}

/// The element at the start of `s`, whatever its tag.
pub open spec fn token_element(s: Seq<u8>, context: &'static str) -> Result<
    (u8, Seq<u8>, Seq<u8>),
    TspError,
> {
    match tlv(s) {
        Err(e) => invalid(Fault::Der(context, e)),
        Ok(v) => Ok(v),
    }
}

fn parse_token_element<'a>(s: &'a [u8], context: &'static str) -> (r: Result<
    (u8, &'a [u8], &'a [u8]),
    TspError,
>)
    ensures
        agrees(r, token_element(s@, context)),
{
    match parse_tlv_with_rest(s) {
        Err(e) => Err(TspError::InvalidResponse(Fault::Der(context, e))),
        Ok(v) => Ok(v),
    }
}

/// The SignedData body inside a ContentInfo.
pub open spec fn token_signed_data(s: Seq<u8>) -> Result<Seq<u8>, TspError> {
    match token_element(s, "failed to parse ContentInfo") {
        Err(e) => Err(e),
        Ok((tag, ci, _)) => if tag != 0x30 {
            invalid(Fault::Text("ContentInfo: expected SEQUENCE"))
        } else {
            match token_element(ci, "failed to parse contentType") {
                Err(e) => Err(e),
                Ok((_, _, ci_rest)) => match token_element(
                    ci_rest,
                    "failed to parse content [0]",
                ) {
                    Err(e) => Err(e),
                    Ok((ctx, inner, _)) => if ctx != 0xA0 {
                        invalid(Fault::Tag("expected [0] EXPLICIT tag 0xA0, got ", ctx))
                    } else {
                        match token_element(inner, "failed to parse SignedData") {
                            Err(e) => Err(e),
                            Ok((sd_tag, sd, _)) => if sd_tag != 0x30 {
                                invalid(Fault::Text("SignedData: expected SEQUENCE"))
                            } else {
                                Ok(sd)
                            },
                        }
                    },
                },
            }
        },
    }
}

/// The body of the encapContentInfo inside a SignedData body.
pub open spec fn encapsulated_info(sd: Seq<u8>) -> Result<Seq<u8>, TspError> {
    match token_element(sd, "failed to parse SD version") {
        Err(e) => Err(e),
        Ok((_, _, s1)) => match token_element(s1, "failed to parse digestAlgorithms") {
            Err(e) => Err(e),
            Ok((_, _, s2)) => match token_element(s2, "failed to parse encapContentInfo") {
                Err(e) => Err(e),
                Ok((_, eci, _)) => Ok(eci),
            },
        },
    }
}

/// The content inside the body of an encapContentInfo.
pub open spec fn encapsulated_content(eci: Seq<u8>) -> Result<Seq<u8>, TspError> {
    match token_element(eci, "failed to parse eContentType") {
        Err(e) => Err(e),
        Ok((_, _, eci_rest)) => match token_element(eci_rest, "failed to parse eContent [0]") {
            Err(e) => Err(e),
            Ok((ec_tag, ec, _)) => if ec_tag != 0xA0 {
                invalid(Fault::Tag("expected eContent [0] tag 0xA0, got ", ec_tag))
            } else {
                content_octets(ec)
            },
        },
    }
}

/// The octets of the content: the OCTET STRING at the start of `ec`.
pub open spec fn content_octets(ec: Seq<u8>) -> Result<Seq<u8>, TspError> {
    match token_element(ec, "failed to parse eContent OCTET STRING") {
        Err(e) => Err(e),
        Ok((os_tag, content, _)) => if os_tag != 0x04 {
            invalid(Fault::Tag("expected OCTET STRING 0x04 for eContent, got ", os_tag))
        } else {
            Ok(content)
        },
    }
}

/// Reads the octets of the content of a token.
pub fn parse_content_octets(ec: &[u8]) -> (r: Result<&[u8], TspError>)
    ensures
        agrees(r, content_octets(ec@)),
{
    let (os_tag, content, _) = parse_token_element(ec, "failed to parse eContent OCTET STRING")?;
    if os_tag != 0x04 {
        return Err(
            TspError::InvalidResponse(
                Fault::Tag("expected OCTET STRING 0x04 for eContent, got ", os_tag),
            ),
        );
    }
    Ok(content)
}

/// The body of the encapContentInfo of a token.
pub open spec fn token_info(s: Seq<u8>) -> Result<Seq<u8>, TspError> {
    match token_signed_data(s) {
        Err(e) => Err(e),
        Ok(sd) => encapsulated_info(sd),
    }
}

/// The content of a token.
pub open spec fn token_content(s: Seq<u8>) -> Result<Seq<u8>, TspError> {
    match token_info(s) {
        Err(e) => Err(e),
        Ok(eci) => encapsulated_content(eci),
    }
}

/// The TSTInfo inside a token.
pub open spec fn token_tst_info(s: Seq<u8>) -> Result<TstInfoView, TspError> {
    match token_content(s) {
        Err(e) => Err(e),
        Ok(content) => tst_info(content),
    }
}

/// Reads the TSTInfo of a token. Nothing is authenticated.
pub fn extract_tst_info(token_der: &[u8]) -> (r: Result<TstInfo, TspError>)
    ensures
        agrees(r, token_tst_info(token_der@)),
{
    let (tag, ci, _) = parse_token_element(token_der, "failed to parse ContentInfo")?;
    if tag != 0x30 {
        return Err(TspError::InvalidResponse(Fault::Text("ContentInfo: expected SEQUENCE")));
    }
    let (_, _, ci_rest) = parse_token_element(ci, "failed to parse contentType")?;
    let (ctx, inner, _) = parse_token_element(ci_rest, "failed to parse content [0]")?;
    if ctx != 0xA0 {
        return Err(
            TspError::InvalidResponse(Fault::Tag("expected [0] EXPLICIT tag 0xA0, got ", ctx)),
        );
    }
    let (sd_tag, sd, _) = parse_token_element(inner, "failed to parse SignedData")?;
    if sd_tag != 0x30 {
        return Err(TspError::InvalidResponse(Fault::Text("SignedData: expected SEQUENCE")));
    }
    let (_, _, s1) = parse_token_element(sd, "failed to parse SD version")?;
    let (_, _, s2) = parse_token_element(s1, "failed to parse digestAlgorithms")?;
    let (_, eci, _) = parse_token_element(s2, "failed to parse encapContentInfo")?;
    let (_, _, eci_rest) = parse_token_element(eci, "failed to parse eContentType")?;
    let (ec_tag, ec, _) = parse_token_element(eci_rest, "failed to parse eContent [0]")?;
    if ec_tag != 0xA0 {
        return Err(
            TspError::InvalidResponse(
                Fault::Tag("expected eContent [0] tag 0xA0, got ", ec_tag),
            ),
        );
    }
    let content = parse_content_octets(ec)?;
    parse_tst_info_body(content)
}

/// Only the encapContentInfo of a token matters to what is read out of it: tokens
/// with the same one give the same result, whatever their certificates, signers
/// and signatures are.
pub proof fn law_only_the_encapsulated_info_matters(a: Seq<u8>, b: Seq<u8>)
    requires
        token_info(a) is Ok,
        token_info(a) == token_info(b),
    ensures
        token_tst_info(a) == token_tst_info(b),
{
}

/// What keeps a TSTInfo from being read out of a token is always that the token is
/// not well-formed: nothing is verified.
pub proof fn law_extraction_errors(s: Seq<u8>)
    ensures
        token_tst_info(s) matches Err(e) ==> e is InvalidResponse,
{
    match token_content(s) {
        Ok(content) => lemma_tst_info_errors(content),
        Err(_) => {},
    }
}

proof fn lemma_tst_info_errors(s: Seq<u8>)
    ensures
        tst_info(s) matches Err(e) ==> e is InvalidResponse,
{
    lemma_field_errors();
    match tst_field(s, 0x30, "TSTInfo") {
        Ok((sequence, _)) => match tst_field(sequence, 0x02, "TSTInfo version") {
            Ok((_, s1)) => match tst_field(s1, 0x06, "TSTInfo policy") {
                Ok((_, s2)) => match tst_field(s2, 0x30, "TSTInfo messageImprint") {
                    Ok((_, s3)) => match tst_field(s3, 0x02, "TSTInfo serialNumber") {
                        Ok((_, s4)) => match tst_field(s4, 0x18, "TSTInfo genTime") {
                            Ok((_, s5)) => lemma_optional_errors(s5, 0, None),
                            Err(_) => {},
                        },
                        Err(_) => {},
                    },
                    Err(_) => {},
                },
                Err(_) => {},
            },
            Err(_) => {},
        },
        Err(_) => {},
    }
}

proof fn lemma_optional_errors(s: Seq<u8>, last: nat, nonce: Option<u64>)
    ensures
        tst_optional(s, last, nonce) matches Err(e) ==> e is InvalidResponse,
    decreases s.len(),
{
    if s.len() > 0 {
        lemma_field_errors();
        lemma_field_shrinks(s, s[0], optional_context(s[0]));
        match tst_field(s, s[0], optional_context(s[0])) {
            Ok((contents, rest)) => {
                lemma_accuracy_errors(contents, 0);
                lemma_extension_errors(contents, Seq::empty());
                let next = if s[0] == 0x02 {
                    Some(uint_within(contents, u64::MAX as nat)->0 as u64)
                } else {
                    nonce
                };
                lemma_optional_errors(rest, optional_rank(s[0]), next);
            },
            Err(_) => {},
        }
    }
}

proof fn lemma_accuracy_errors(s: Seq<u8>, last: nat)
    ensures
        tst_accuracy(s, last) matches Err(e) ==> e is InvalidResponse,
    decreases s.len(),
{
    if s.len() > 0 {
        lemma_field_errors();
        lemma_field_shrinks(s, s[0], "TSTInfo accuracy");
        match tst_field(s, s[0], "TSTInfo accuracy") {
            Ok((_, rest)) => lemma_accuracy_errors(rest, accuracy_rank(s[0])),
            Err(_) => {},
        }
    }
}

proof fn lemma_extension_errors(s: Seq<u8>, seen: Seq<Seq<u8>>)
    ensures
        tst_extension_list(s, seen) matches Err(e) ==> e is InvalidResponse,
    decreases s.len(),
{
    if s.len() > 0 {
        lemma_field_errors();
        lemma_field_shrinks(s, 0x30, "TSTInfo extension");
        match tst_field(s, 0x30, "TSTInfo extension") {
            Ok((contents, rest)) => match extension_of(tlv_bytes(0x30, contents)) {
                Some(ext) => lemma_extension_errors(rest, seen.push(ext.extn_id)),
                None => {},
            },
            Err(_) => {},
        }
    }
}

} // verus!
