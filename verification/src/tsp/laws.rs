//! What requesting, reading and verifying timestamps means in terms of the bytes
//! that are written and signed.

use vstd::prelude::*;

#[allow(unused_imports)]
use crate::asn1::laws::{flag_element, law_extension_read_back, lemma_elements, lemma_short};
#[allow(unused_imports)]
use crate::asn1::{
    algorithm_id_of, bit_string, int_canonical, nonzero_padding, known_tag, oid_text, oid_valid,
    uint_canonical, uint_within, whole_arcs, MAX_DER_LENGTH,
};
#[allow(unused_imports)]
use crate::cert::CertificateView;
#[allow(unused_imports)]
use crate::crypto::algorithm::{
    digest_oid, digest_size, hash_of, law_digest_oid, DigestAlgorithm, HashAlgorithm,
};
#[allow(unused_imports)]
use crate::der_utils::{
    integer_contents, law_integer_contents, law_tlv_round_trip, lemma_be_len_u64, tlv, tlv_bytes,
    DerError,
};
#[allow(unused_imports)]
use crate::error::TspError;
#[allow(unused_imports)]
use crate::text::utf8_of;
#[allow(unused_imports)]
use crate::tsp::cms::{attributes_of, single_value, with_type, AttributeView};
#[allow(unused_imports)]
use crate::tsp::field::{law_field_round_trip, tst_field};
#[allow(unused_imports)]
use crate::tsp::response::{
    free_text, hash_identifier, imprint_bytes, law_imprint_read_back, request_body, response_token,
    status_fields, timestamp_response, TimeStampRespView,
};
#[allow(unused_imports)]
use crate::tsp::status::{law_success_codes, status_of_code, PkiStatus};
#[allow(unused_imports)]
use crate::tsp::tst_info::{
    accuracy_rank, encapsulated_content, encapsulated_info, optional_check, optional_rank,
    token_content, token_signed_data, token_tst_info, tst_accuracy, message_imprint,
    tst_extension_list, tst_info, tst_optional, tst_tsa_name, TstInfoView, DER_NULL,
};
#[allow(unused_imports)]
use crate::tsp::verify::{
    octets_element, oid_element, opened_token, signed_content, token_signature, token_signer,
    verified_token, ID_CONTENT_TYPE_ATTR, ID_CT_TST_INFO, ID_MESSAGE_DIGEST_ATTR,
};

verus! {

/// An element, or nothing.
pub open spec fn optional_element(tag: u8, contents: Option<Seq<u8>>) -> Seq<u8> {
    match contents {
        Some(c) => tlv_bytes(tag, c),
        None => Seq::empty(),
    }
}

/// Fields that were written are read back, alone and before others.
pub proof fn lemma_written()
    ensures
        forall|tag: u8, contents: Seq<u8>, after: Seq<u8>, context: &'static str|
            known_tag(tag) && tlv_bytes(tag, contents).len() <= MAX_DER_LENGTH
                ==> #[trigger] tst_field(tlv_bytes(tag, contents) + after, tag, context) == Ok::<
                (Seq<u8>, Seq<u8>),
                TspError,
            >((contents, after)),
        forall|tag: u8, contents: Seq<u8>, context: &'static str|
            known_tag(tag) && tlv_bytes(tag, contents).len() <= MAX_DER_LENGTH
                ==> #[trigger] tst_field(tlv_bytes(tag, contents), tag, context) == Ok::<
                (Seq<u8>, Seq<u8>),
                TspError,
            >((contents, Seq::<u8>::empty())),
        forall|tag: u8, contents: Seq<u8>|
            (#[trigger] tlv_bytes(tag, contents)).len() > contents.len() && tlv_bytes(tag, contents)[0]
                == tag,
        forall|tag: u8, contents: Seq<u8>, after: Seq<u8>|
            (#[trigger] (tlv_bytes(tag, contents) + after))[0] == tag,
{
    assert forall|tag: u8, contents: Seq<u8>, after: Seq<u8>, context: &'static str|
        known_tag(tag) && tlv_bytes(tag, contents).len() <= MAX_DER_LENGTH implies #[trigger] tst_field(
        tlv_bytes(tag, contents) + after,
        tag,
        context,
    ) == Ok::<(Seq<u8>, Seq<u8>), TspError>((contents, after)) by {
        law_field_round_trip(tag, contents, after, context);
    }
    assert forall|tag: u8, contents: Seq<u8>, context: &'static str|
        known_tag(tag) && tlv_bytes(tag, contents).len() <= MAX_DER_LENGTH implies #[trigger] tst_field(
        tlv_bytes(tag, contents),
        tag,
        context,
    ) == Ok::<(Seq<u8>, Seq<u8>), TspError>((contents, Seq::<u8>::empty())) by {
        law_field_round_trip(tag, contents, Seq::empty(), context);
        assert(tlv_bytes(tag, contents) + Seq::<u8>::empty() =~= tlv_bytes(tag, contents));
    }
}

proof fn lemma_optional_step(
    tag: u8,
    contents: Option<Seq<u8>>,
    rest: Seq<u8>,
    last: nat,
    nonce: Option<u64>,
)
    requires
        last < optional_rank(tag) <= 5,
        contents matches Some(c) ==> optional_check(tag, c) is Ok && tlv_bytes(tag, c).len()
            <= MAX_DER_LENGTH,
    ensures
        tst_optional(optional_element(tag, contents) + rest, last, nonce) == (match contents {
            Some(c) => tst_optional(
                rest,
                optional_rank(tag),
                if tag == 0x02 { Some(uint_within(c, u64::MAX as nat)->0 as u64) } else { nonce },
            ),
            None => tst_optional(rest, last, nonce),
        }),
{
    lemma_written();
    match contents {
        Some(c) => {},
        None => {
            assert(optional_element(tag, contents) + rest =~= rest);
        },
    }
}

/// The optional fields of a TSTInfo may each be there or not, in their order; the
/// nonce that is read is the one that is written, and none where none is.
pub proof fn law_optional_fields_read_back(
    accuracy: Option<Seq<u8>>,
    ordering: Option<bool>,
    nonce: Option<u64>,
    tsa: Option<Seq<u8>>,
    extensions: Option<Seq<u8>>,
)
    requires
        accuracy matches Some(c) ==> optional_check(0x30, c) is Ok && tlv_bytes(0x30, c).len()
            <= MAX_DER_LENGTH,
        tsa matches Some(c) ==> optional_check(0xA0, c) is Ok && tlv_bytes(0xA0, c).len()
            <= MAX_DER_LENGTH,
        extensions matches Some(c) ==> optional_check(0xA1, c) is Ok && tlv_bytes(0xA1, c).len()
            <= MAX_DER_LENGTH,
    ensures
        tst_optional(
            optional_element(0x30, accuracy) + (optional_element(
                0x01,
                match ordering {
                    Some(b) => Some(seq![if b { 0xFFu8 } else { 0x00u8 }]),
                    None => None,
                },
            ) + (optional_element(
                0x02,
                match nonce {
                    Some(n) => Some(integer_contents(n as nat)),
                    None => None,
                },
            ) + (optional_element(0xA0, tsa) + optional_element(0xA1, extensions)))),
            0,
            None,
        ) == Ok::<Option<u64>, TspError>(nonce),
{
    let none = Seq::<u8>::empty();
    let flag = match ordering {
        Some(b) => Some(seq![if b { 0xFFu8 } else { 0x00u8 }]),
        None => None,
    };
    let number = match nonce {
        Some(n) => Some(integer_contents(n as nat)),
        None => None,
    };
    let s5 = optional_element(0xA1, extensions);
    let s4 = optional_element(0xA0, tsa) + s5;
    let s3 = optional_element(0x02, number) + s4;
    let s2 = optional_element(0x01, flag) + s3;
    if nonce is Some {
        law_integer_contents(nonce->0 as nat);
        lemma_be_len_u64(nonce->0);
    }
    let a = if accuracy is Some { 1nat } else { 0 };
    let b = if flag is Some { 2nat } else { a };
    let c = if number is Some { 3nat } else { b };
    let d = if tsa is Some { 4nat } else { c };
    lemma_optional_step(0x30, accuracy, s2, 0, None);
    lemma_optional_step(0x01, flag, s3, a, None);
    lemma_optional_step(0x02, number, s4, b, None);
    lemma_optional_step(0xA0, tsa, s5, c, nonce);
    lemma_optional_step(0xA1, extensions, none, d, nonce);
    assert(s5 + none =~= s5);
}

/// A TSTInfo that is written is read back field by field.
pub proof fn law_tst_info_read_back(
    policy: Seq<u8>,
    alg: DigestAlgorithm,
    hash: Seq<u8>,
    serial: Seq<u8>,
    time: Seq<u8>,
    optional: Seq<u8>,
    nonce: Option<u64>,
)
    requires
        oid_valid(policy),
        hash.len() == digest_size(alg),
        int_canonical(serial),
        tst_optional(optional, 0, None) == Ok::<Option<u64>, TspError>(nonce),
        policy.len() + serial.len() + time.len() + optional.len() <= 0x100_0000,
    ensures
        tst_info(
            tlv_bytes(
                0x30,
                tlv_bytes(0x02, seq![1u8]) + (tlv_bytes(0x06, policy) + (tlv_bytes(
                    0x30,
                    hash_identifier(alg) + tlv_bytes(0x04, hash),
                ) + (tlv_bytes(0x02, serial) + (tlv_bytes(0x18, time) + optional)))),
            ),
        ) == Ok::<TstInfoView, TspError>(
            TstInfoView {
                hash_algorithm: alg,
                message_hash: hash,
                serial_number: serial,
                gen_time_der: time,
                nonce,
                policy_oid: Some(oid_text(policy)),
            },
        ),
{
    lemma_written();
    law_imprint_read_back(alg, hash);
    law_integer_contents(1);
    assert(crate::bytes::be_bytes(1) =~= seq![1u8]);
    lemma_small_elements();
    assert(digest_oid(alg).len() == 9);
    let imprint = hash_identifier(alg) + tlv_bytes(0x04, hash);
    let s5 = tlv_bytes(0x18, time) + optional;
    let s4 = tlv_bytes(0x02, serial) + s5;
    let s3 = tlv_bytes(0x30, imprint) + s4;
    let s2 = tlv_bytes(0x06, policy) + s3;
    let s1 = tlv_bytes(0x02, seq![1u8]) + s2;
    assert(tlv_bytes(0x30, s1).len() <= MAX_DER_LENGTH);
}

/// An element is at most five octets of length longer than its contents.
proof fn lemma_small_elements()
    ensures
        forall|tag: u8, contents: Seq<u8>|
            contents.len() <= u32::MAX ==> (#[trigger] tlv_bytes(tag, contents)).len()
                <= contents.len() + 6,
{
    assert forall|tag: u8, contents: Seq<u8>| contents.len() <= u32::MAX implies (
    #[trigger] tlv_bytes(tag, contents)).len() <= contents.len() + 6 by {
        lemma_be_len_u64(contents.len() as u64);
    }
}

/// What follows the imprint of a request is read as what was asked for, in every
/// combination: an object identifier with the policy, an INTEGER with the nonce and
/// BOOLEAN TRUE for certificates, each exactly where it is asked for, in this order,
/// and nothing else.
pub proof fn law_request_options_read_back(
    alg: DigestAlgorithm,
    hash: Seq<u8>,
    policy: Option<Seq<u8>>,
    nonce: Option<u64>,
    cert_req: bool,
)
    requires
        imprint_bytes(alg, hash).len() <= u32::MAX,
        policy matches Some(p) ==> p.len() <= u32::MAX,
    ensures
        ({
            let body = request_body(alg, hash, policy, nonce, cert_req);
            let after_version = tlv(body)->Ok_0.2;
            let options = tlv(after_version)->Ok_0.2;
            let after_policy = if policy is Some { tlv(options)->Ok_0.2 } else { options };
            let after_nonce = if nonce is Some { tlv(after_policy)->Ok_0.2 } else { after_policy };
            &&& tlv(body) is Ok && tlv(after_version) is Ok
            &&& policy matches Some(p) ==> tlv(options) == Ok::<(u8, Seq<u8>, Seq<u8>), DerError>(
                (0x06, p, after_policy),
            )
            &&& nonce matches Some(n) ==> tlv(after_policy) == Ok::<
                (u8, Seq<u8>, Seq<u8>),
                DerError,
            >((0x02, integer_contents(n as nat), after_nonce))
            &&& after_nonce == (if cert_req {
                seq![0x01u8, 0x01, 0xFF]
            } else {
                Seq::<u8>::empty()
            })
        }),
{
    let contents = match nonce {
        Some(n) => Some(integer_contents(n as nat)),
        None => None,
    };
    let last = if cert_req { seq![0x01u8, 0x01, 0xFF] } else { Seq::<u8>::empty() };
    let after_policy = optional_element(0x02, contents) + last;
    let options = optional_element(0x06, policy) + after_policy;
    let after_version = imprint_bytes(alg, hash) + options;
    let version = integer_contents(1);
    let imprint = hash_identifier(alg) + tlv_bytes(0x04, hash);
    lemma_request_written(alg, hash, policy, nonce, cert_req);
    assert(version.len() == 1) by {
        law_integer_contents(1);
        assert(crate::bytes::be_bytes(1) =~= seq![1u8]);
    }
    law_tlv_round_trip(0x02, version, after_version);
    assert(imprint_bytes(alg, hash) == tlv_bytes(0x30, imprint));
    law_tlv_round_trip(0x30, imprint, options);
    lemma_optional_read(0x06, policy, after_policy);
    if nonce is Some {
        lemma_be_len_u64(nonce->0);
    }
    lemma_optional_read(0x02, contents, last);
}

proof fn lemma_request_written(
    alg: DigestAlgorithm,
    hash: Seq<u8>,
    policy: Option<Seq<u8>>,
    nonce: Option<u64>,
    cert_req: bool,
)
    ensures
        request_body(alg, hash, policy, nonce, cert_req) == tlv_bytes(0x02, integer_contents(1)) + (
        imprint_bytes(alg, hash) + (optional_element(0x06, policy) + (optional_element(
            0x02,
            match nonce {
                Some(n) => Some(integer_contents(n as nat)),
                None => None,
            },
        ) + (if cert_req {
            seq![0x01u8, 0x01, 0xFF]
        } else {
            Seq::<u8>::empty()
        })))),
{
    assert(tlv_bytes(0x01, seq![0xFFu8]) =~= seq![0x01u8, 0x01, 0xFF]);
    let a = tlv_bytes(0x02, integer_contents(1));
    let b = imprint_bytes(alg, hash);
    let c = optional_element(0x06, policy);
    let d = match nonce {
        Some(n) => tlv_bytes(0x02, integer_contents(n as nat)),
        None => Seq::<u8>::empty(),
    };
    let e = if cert_req { seq![0x01u8, 0x01, 0xFF] } else { Seq::<u8>::empty() };
    assert(request_body(alg, hash, policy, nonce, cert_req) == a + b + c + d + e);
    assert(a + b + c + d + e =~= a + (b + (c + (d + e))));
}

proof fn lemma_optional_read(tag: u8, contents: Option<Seq<u8>>, rest: Seq<u8>)
    requires
        contents matches Some(c) ==> c.len() <= u32::MAX,
    ensures
        match contents {
            Some(c) => tlv(optional_element(tag, contents) + rest) == Ok::<
                (u8, Seq<u8>, Seq<u8>),
                DerError,
            >((tag, c, rest)),
            None => optional_element(tag, contents) + rest == rest,
        },
{
    match contents {
        Some(c) => law_tlv_round_trip(tag, c, rest),
        None => {
            assert(optional_element(tag, contents) + rest =~= rest);
        },
    }
}

/// The attributes of a type are the attributes of the list that have it: each is in
/// the list, each such attribute of the list is among them, and two make at least two.
pub proof fn law_attributes_of_a_type(attrs: Seq<AttributeView>, oid: Seq<u8>)
    ensures
        forall|k: int|
            0 <= k < with_type(attrs, oid).len() ==> attrs.contains(
                #[trigger] with_type(attrs, oid)[k],
            ) && with_type(attrs, oid)[k].oid == oid,
        forall|i: int|
            0 <= i < attrs.len() && (#[trigger] attrs[i]).oid == oid ==> with_type(
                attrs,
                oid,
            ).contains(attrs[i]),
        forall|i: int, j: int|
            0 <= i < j < attrs.len() && (#[trigger] attrs[i]).oid == oid && (
            #[trigger] attrs[j]).oid == oid ==> with_type(attrs, oid).len() >= 2,
    decreases attrs.len(),
{
    if attrs.len() > 0 {
        let front = attrs.drop_last();
        let found = with_type(front, oid);
        let all = with_type(attrs, oid);
        law_attributes_of_a_type(front, oid);
        assert forall|k: int| 0 <= k < all.len() implies attrs.contains(#[trigger] all[k])
            && all[k].oid == oid by {
            if k < found.len() {
                assert(all[k] == found[k]);
                let w = choose|w: int| 0 <= w < front.len() && front[w] == found[k];
                assert(attrs[w] == all[k]);
            } else {
                assert(attrs[attrs.len() - 1] == all[k]);
            }
        }
        assert forall|i: int| 0 <= i < attrs.len() && (#[trigger] attrs[i]).oid == oid implies all.contains(
            attrs[i],
        ) by {
            if i < front.len() {
                assert(front[i] == attrs[i]);
                let w = choose|w: int| 0 <= w < found.len() && found[w] == attrs[i];
                assert(all[w] == attrs[i]);
            } else {
                assert(all[all.len() - 1] == attrs[i]);
            }
        }
        assert forall|i: int, j: int|
            0 <= i < j < attrs.len() && (#[trigger] attrs[i]).oid == oid && (
            #[trigger] attrs[j]).oid == oid implies all.len() >= 2 by {
            assert(front[i] == attrs[i]);
            assert(found.contains(attrs[i]));
            if j < front.len() {
                assert(front[j] == attrs[j]);
            }
        }
    }
}

/// The list has exactly one attribute of a type, with exactly one value.
pub open spec fn has_single_value(attrs: Seq<AttributeView>, oid: Seq<u8>, value: Seq<u8>) -> bool {
    exists|i: int|
        0 <= i < attrs.len() && (#[trigger] attrs[i]).oid == oid && attrs[i].values == seq![value]
            && forall|j: int| 0 <= j < attrs.len() && j != i ==> (#[trigger] attrs[j]).oid != oid
}

/// What is found under a type is the value of the only attribute of that type, and
/// nothing where there is no attribute of it.
pub proof fn law_single_value(attrs: Seq<AttributeView>, oid: Seq<u8>, value: Seq<u8>)
    ensures
        single_value(attrs, oid) == Ok::<Option<Seq<u8>>, TspError>(Some(value))
            <==> has_single_value(attrs, oid, value),
        single_value(attrs, oid) == Ok::<Option<Seq<u8>>, TspError>(None) <==> forall|i: int|
            0 <= i < attrs.len() ==> (#[trigger] attrs[i]).oid != oid,
{
    law_attributes_of_a_type(attrs, oid);
    let found = with_type(attrs, oid);
    if single_value(attrs, oid) == Ok::<Option<Seq<u8>>, TspError>(Some(value)) {
        let i = choose|i: int| 0 <= i < attrs.len() && attrs[i] == found[0];
        assert(found[0].oid == oid);
        assert(attrs[i].values =~= seq![value]);
        assert forall|j: int| 0 <= j < attrs.len() && j != i implies (#[trigger] attrs[j]).oid
            != oid by {
            if attrs[j].oid == oid {
                if i < j {
                    assert(attrs[i].oid == oid && attrs[j].oid == oid);
                } else {
                    assert(attrs[j].oid == oid && attrs[i].oid == oid);
                }
            }
        }
    }
    if has_single_value(attrs, oid, value) {
        let i = choose|i: int|
            0 <= i < attrs.len() && (#[trigger] attrs[i]).oid == oid && attrs[i].values
                == seq![value] && forall|j: int|
                0 <= j < attrs.len() && j != i ==> (#[trigger] attrs[j]).oid != oid;
        lemma_single_attribute(attrs, oid, i);
    }
    if forall|i: int| 0 <= i < attrs.len() ==> (#[trigger] attrs[i]).oid != oid {
        if found.len() > 0 {
            let w = choose|w: int| 0 <= w < attrs.len() && attrs[w] == found[0];
            assert(attrs[w].oid != oid);
        }
    }
    if single_value(attrs, oid) == Ok::<Option<Seq<u8>>, TspError>(None) {
        assert forall|i: int| 0 <= i < attrs.len() implies (#[trigger] attrs[i]).oid != oid by {
            if attrs[i].oid == oid {
                assert(found.contains(attrs[i]));
            }
        }
    }
}

proof fn lemma_single_attribute(attrs: Seq<AttributeView>, oid: Seq<u8>, i: int)
    requires
        0 <= i < attrs.len(),
        attrs[i].oid == oid,
        forall|j: int| 0 <= j < attrs.len() && j != i ==> (#[trigger] attrs[j]).oid != oid,
    ensures
        with_type(attrs, oid) == seq![attrs[i]],
    decreases attrs.len(),
{
    let front = attrs.drop_last();
    if i == attrs.len() - 1 {
        law_attributes_of_a_type(front, oid);
        let found = with_type(front, oid);
        if found.len() > 0 {
            let w = choose|w: int| 0 <= w < front.len() && front[w] == found[0];
            assert(attrs[w] == front[w]);
        }
        assert(with_type(attrs, oid) =~= seq![attrs[i]]);
    } else {
        assert(attrs[attrs.len() - 1].oid != oid);
        assert forall|j: int| 0 <= j < front.len() && j != i implies (#[trigger] front[j]).oid
            != oid by {
            assert(front[j] == attrs[j]);
        }
        lemma_single_attribute(front, oid, i);
    }
}

/// What a verified token's signer signed is the content: the only message-digest
/// attribute holds, byte for byte, the hash of the content under the digest algorithm
/// of the signer, and the only content-type attribute says that it is a TSTInfo.
pub proof fn law_signed_digest_is_the_hash(token: Seq<u8>, extra: Seq<CertificateView>)
    requires
        verified_token(token, extra) is Ok,
    ensures
        opened_token(token) matches Ok(opened) && (attributes_of(opened.signed_attrs) matches Some(
            attrs,
        ) && exists|alg: DigestAlgorithm|
            #[trigger] digest_oid(alg) == opened.signer.digest_oid && (hash_of(
                HashAlgorithm::Digest(alg),
                opened.content,
            ) matches Some(hash) && has_single_value(
                attrs,
                ID_MESSAGE_DIGEST_ATTR@,
                tlv_bytes(0x04, hash),
            ) && has_single_value(
                attrs,
                ID_CONTENT_TYPE_ATTR@,
                tlv_bytes(0x06, ID_CT_TST_INFO@),
            ))),
{
    reveal(verified_token);
    let opened = opened_token(token)->Ok_0;
    let (signer, pool, _) = verified_token(token, extra)->Ok_0;
    let (_, attrs) = token_signer(opened, pool)->Ok_0;
    assert(attributes_of(opened.signed_attrs) == Some(attrs)) by {
        reveal(token_signer);
    }
    assert(signed_content(attrs, opened.signer.digest_oid, opened.content) is Ok) by {
        reveal(token_signature);
    }
    law_signed_content(attrs, opened.signer.digest_oid, opened.content);
    let alg = signed_content(attrs, opened.signer.digest_oid, opened.content)->Ok_0;
    assert(digest_oid(alg) == opened.signer.digest_oid);
}

/// Signed attributes cover a content exactly where its type and its hash are the
/// values of their single attributes.
pub proof fn law_signed_content(attrs: Seq<AttributeView>, oid: Seq<u8>, content: Seq<u8>)
    ensures
        forall|alg: DigestAlgorithm|
            signed_content(attrs, oid, content) == Ok::<DigestAlgorithm, TspError>(alg) ==> {
                &&& #[trigger] digest_oid(alg) == oid
                &&& hash_of(HashAlgorithm::Digest(alg), content) matches Some(hash)
                    && has_single_value(attrs, ID_MESSAGE_DIGEST_ATTR@, tlv_bytes(0x04, hash))
                &&& has_single_value(
                    attrs,
                    ID_CONTENT_TYPE_ATTR@,
                    tlv_bytes(0x06, ID_CT_TST_INFO@),
                )
            },
        forall|alg: DigestAlgorithm|
            (#[trigger] digest_oid(alg) == oid && (hash_of(
                HashAlgorithm::Digest(alg),
                content,
            ) matches Some(hash) && hash.len() <= 0x100_0000 && has_single_value(
                attrs,
                ID_MESSAGE_DIGEST_ATTR@,
                tlv_bytes(0x04, hash),
            )) && has_single_value(
                attrs,
                ID_CONTENT_TYPE_ATTR@,
                tlv_bytes(0x06, ID_CT_TST_INFO@),
            )) ==> signed_content(attrs, oid, content) == Ok::<DigestAlgorithm, TspError>(alg),
{
    lemma_elements_read();
    lemma_tst_info_oid();
    assert forall|alg: DigestAlgorithm|
        signed_content(attrs, oid, content) == Ok::<DigestAlgorithm, TspError>(alg) implies {
        &&& #[trigger] digest_oid(alg) == oid
        &&& hash_of(HashAlgorithm::Digest(alg), content) matches Some(hash) && has_single_value(
            attrs,
            ID_MESSAGE_DIGEST_ATTR@,
            tlv_bytes(0x04, hash),
        )
        &&& has_single_value(attrs, ID_CONTENT_TYPE_ATTR@, tlv_bytes(0x06, ID_CT_TST_INFO@))
    } by {
        law_digest_oid(alg, oid);
        let digest_value = single_value(attrs, ID_MESSAGE_DIGEST_ATTR@)->Ok_0->0;
        let type_value = single_value(attrs, ID_CONTENT_TYPE_ATTR@)->Ok_0->0;
        law_single_value(attrs, ID_MESSAGE_DIGEST_ATTR@, digest_value);
        law_single_value(attrs, ID_CONTENT_TYPE_ATTR@, type_value);
    }
    assert forall|alg: DigestAlgorithm|
        (#[trigger] digest_oid(alg) == oid && (hash_of(HashAlgorithm::Digest(alg), content)
            matches Some(hash) && hash.len() <= 0x100_0000 && has_single_value(
            attrs,
            ID_MESSAGE_DIGEST_ATTR@,
            tlv_bytes(0x04, hash),
        )) && has_single_value(attrs, ID_CONTENT_TYPE_ATTR@, tlv_bytes(0x06, ID_CT_TST_INFO@)))
        implies signed_content(attrs, oid, content) == Ok::<DigestAlgorithm, TspError>(alg) by {
        law_digest_oid(alg, oid);
        let hash = hash_of(HashAlgorithm::Digest(alg), content)->0;
        law_single_value(attrs, ID_MESSAGE_DIGEST_ATTR@, tlv_bytes(0x04, hash));
        law_single_value(attrs, ID_CONTENT_TYPE_ATTR@, tlv_bytes(0x06, ID_CT_TST_INFO@));
    }
}

proof fn lemma_tst_info_oid()
    ensures
        oid_valid(ID_CT_TST_INFO@),
{
    reveal(oid_valid);
    reveal_with_fuel(whole_arcs, 12);
}

/// An element is read exactly where it is written with its tag and its contents.
proof fn lemma_elements_read()
    ensures
        forall|der: Seq<u8>, c: Seq<u8>|
            #[trigger] octets_element(der) == Some(c) ==> #[trigger] tlv_bytes(0x04, c) == der,
        forall|der: Seq<u8>, c: Seq<u8>|
            #[trigger] oid_element(der) == Some(c) ==> #[trigger] tlv_bytes(0x06, c) == der,
        forall|c: Seq<u8>|
            c.len() <= 0x100_0000 ==> octets_element(#[trigger] tlv_bytes(0x04, c)) == Some(c),
        forall|c: Seq<u8>|
            c.len() <= 0x100_0000 && oid_valid(c) ==> oid_element(#[trigger] tlv_bytes(0x06, c))
                == Some(c),
{
    lemma_small_elements();
    let none = Seq::<u8>::empty();
    assert forall|der: Seq<u8>, c: Seq<u8>| #[trigger]
        octets_element(der) == Some(c) implies #[trigger] tlv_bytes(0x04, c) == der by {
        crate::der_utils::lemma_tlv_shrinks(der);
    }
    assert forall|der: Seq<u8>, c: Seq<u8>| #[trigger]
        oid_element(der) == Some(c) implies #[trigger] tlv_bytes(0x06, c) == der by {
        crate::der_utils::lemma_tlv_shrinks(der);
    }
    assert forall|c: Seq<u8>| c.len() <= 0x100_0000 implies octets_element(
        #[trigger] tlv_bytes(0x04, c),
    ) == Some(c) by {
        law_tlv_round_trip(0x04, c, none);
        assert(tlv_bytes(0x04, c) + none =~= tlv_bytes(0x04, c));
    }
    assert forall|c: Seq<u8>| c.len() <= 0x100_0000 && oid_valid(c) implies oid_element(
        #[trigger] tlv_bytes(0x06, c),
    ) == Some(c) by {
        law_tlv_round_trip(0x06, c, none);
        assert(tlv_bytes(0x06, c) + none =~= tlv_bytes(0x06, c));
    }
}

/// Each status has its own number, and every other number is an unknown status that
/// keeps it.
pub proof fn law_status_numbers(v: u64)
    ensures
        status_of_code(v) is Granted <==> v == 0,
        status_of_code(v) is GrantedWithMods <==> v == 1,
        status_of_code(v) is Rejection <==> v == 2,
        status_of_code(v) is Waiting <==> v == 3,
        status_of_code(v) is RevocationWarning <==> v == 4,
        status_of_code(v) is RevocationNotification <==> v == 5,
        v > 5 ==> status_of_code(v) == PkiStatus::Unknown(v),
{
}

/// Of several status texts the first is the one that is reported.
pub proof fn law_first_text(text: Seq<u8>, rest: Seq<u8>, chars: Seq<char>)
    requires
        text.len() <= 0x100_0000,
        utf8_of(text) == Some(chars),
    ensures
        free_text(tlv_bytes(0x0C, text) + rest, None) matches Ok(t) ==> t == Some(chars),
        free_text(tlv_bytes(0x0C, text), None) == Ok::<Option<Seq<char>>, TspError>(Some(chars)),
{
    lemma_written();
    lemma_short();
    lemma_text_is_kept(rest, chars);
    assert(free_text(Seq::empty(), Some(chars)) == Ok::<Option<Seq<char>>, TspError>(Some(chars)));
}

proof fn lemma_text_is_kept(s: Seq<u8>, chars: Seq<char>)
    ensures
        free_text(s, Some(chars)) matches Ok(t) ==> t == Some(chars),
    decreases s.len(),
{
    if s.len() > 0 && s[0] == 0x0C {
        crate::tsp::field::lemma_field_shrinks(s, 0x0C, "statusString");
        if let Ok((_, rest)) = tst_field(s, 0x0C, "statusString") {
            lemma_text_is_kept(rest, chars);
        }
    }
}

/// A response as it is written: the number of its status, a text, what failed, and the
/// token.
pub open spec fn response_bytes(
    code: u64,
    text: Option<Seq<u8>>,
    failure: Option<Seq<u8>>,
    token: Option<Seq<u8>>,
) -> Seq<u8> {
    tlv_bytes(
        0x30,
        tlv_bytes(
            0x30,
            tlv_bytes(0x02, integer_contents(code as nat)) + (optional_element(
                0x30,
                match text {
                    Some(t) => Some(tlv_bytes(0x0C, t)),
                    None => None,
                },
            ) + optional_element(0x03, failure)),
        ) + optional_element(0x30, token),
    )
}

proof fn lemma_status_fields(text: Option<Seq<u8>>, failure: Option<Seq<u8>>)
    requires
        text matches Some(t) ==> t.len() <= 0x10_0000 && utf8_of(t) is Some,
        failure matches Some(f) ==> f.len() <= 0x10_0000 && (bit_string(f) matches Some((
            unused,
            octets,
        )) && !nonzero_padding(unused, octets)),
    ensures
        ({
            let fields = optional_element(
                0x30,
                match text {
                    Some(t) => Some(tlv_bytes(0x0C, t)),
                    None => None,
                },
            ) + optional_element(0x03, failure);
            &&& status_fields(fields, None, None) == Ok::<
                (Option<Seq<char>>, Option<Seq<u8>>),
                TspError,
            >(
                (
                    match text {
                        Some(t) => utf8_of(t),
                        None => None,
                    },
                    failure,
                ),
            )
            &&& fields.len() <= 0x30_0000
        }),
{
    lemma_written();
    lemma_short();
    let text_element = optional_element(
        0x30,
        match text {
            Some(t) => Some(tlv_bytes(0x0C, t)),
            None => None,
        },
    );
    let chars = match text {
        Some(t) => utf8_of(t),
        None => None,
    };
    let failure_element = optional_element(0x03, failure);
    assert(status_fields(Seq::empty(), chars, failure) == Ok::<
        (Option<Seq<char>>, Option<Seq<u8>>),
        TspError,
    >((chars, failure)));
    assert(status_fields(failure_element, chars, None) == Ok::<
        (Option<Seq<char>>, Option<Seq<u8>>),
        TspError,
    >((chars, failure)));
    match text {
        Some(t) => {
            law_first_text(t, Seq::empty(), utf8_of(t)->0);
        },
        None => {
            assert(text_element + failure_element =~= failure_element);
        },
    }
}

/// The status, the text, the failure information and the token of a response are those
/// that were written.
pub proof fn law_response_read_back(
    code: u64,
    text: Option<Seq<u8>>,
    failure: Option<Seq<u8>>,
    token: Option<Seq<u8>>,
)
    requires
        text matches Some(t) ==> t.len() <= 0x10_0000 && utf8_of(t) is Some,
        failure matches Some(f) ==> f.len() <= 0x10_0000 && (bit_string(f) matches Some((
            unused,
            octets,
        )) && !nonzero_padding(unused, octets)),
        token matches Some(t) ==> t.len() <= 0x100_0000 && code <= 1,
    ensures
        timestamp_response(response_bytes(code, text, failure, token)) == Ok::<
            TimeStampRespView,
            TspError,
        >(
            TimeStampRespView {
                status: status_of_code(code),
                status_string: match text {
                    Some(t) => utf8_of(t),
                    None => None,
                },
                failure_info: failure,
                token_der: match token {
                    Some(t) => Some(tlv_bytes(0x30, t)),
                    None => None,
                },
            },
        ),
{
    let fields = optional_element(
        0x30,
        match text {
            Some(t) => Some(tlv_bytes(0x0C, t)),
            None => None,
        },
    ) + optional_element(0x03, failure);
    let number = integer_contents(code as nat);
    lemma_status_fields(text, failure);
    lemma_token_written(code, token);
    lemma_be_len_u64(code);
    law_integer_contents(code as nat);
    assert(uint_within(number, u64::MAX as nat) == Some(code as nat));
    lemma_response_written(number, fields, optional_element(0x30, token));
}

proof fn lemma_token_written(code: u64, token: Option<Seq<u8>>)
    requires
        token matches Some(t) ==> t.len() <= 0x100_0000 && code <= 1,
    ensures
        response_token(optional_element(0x30, token), status_of_code(code)) == Ok::<
            Option<Seq<u8>>,
            TspError,
        >(
            match token {
                Some(t) => Some(tlv_bytes(0x30, t)),
                None => None,
            },
        ),
        optional_element(0x30, token).len() <= 0x100_0006,
{
    lemma_written();
    lemma_short();
    law_success_codes(code);
}

proof fn lemma_response_written(number: Seq<u8>, fields: Seq<u8>, token: Seq<u8>)
    requires
        number.len() <= 16,
        fields.len() <= 0x30_0000,
        token.len() <= 0x100_0006,
    ensures
        ({
            let info = tlv_bytes(0x02, number) + fields;
            let response = tlv_bytes(0x30, info) + token;
            &&& tst_field(tlv_bytes(0x30, response), 0x30, "TimeStampResp") == Ok::<
                (Seq<u8>, Seq<u8>),
                TspError,
            >((response, Seq::<u8>::empty()))
            &&& tst_field(response, 0x30, "PKIStatusInfo") == Ok::<(Seq<u8>, Seq<u8>), TspError>(
                (info, token),
            )
            &&& tst_field(info, 0x02, "PKIStatus") == Ok::<(Seq<u8>, Seq<u8>), TspError>(
                (number, fields),
            )
        }),
{
    lemma_written();
    lemma_short();
}

/// A token as it is written around its content.
pub open spec fn token_bytes(
    content_type: Seq<u8>,
    version: Seq<u8>,
    digests: Seq<u8>,
    econtent_type: Seq<u8>,
    content: Seq<u8>,
    rest: Seq<u8>,
) -> Seq<u8> {
    let eci = tlv_bytes(0x06, econtent_type) + tlv_bytes(0xA0, tlv_bytes(0x04, content));
    let sd = tlv_bytes(0x02, version) + (tlv_bytes(0x31, digests) + (tlv_bytes(0x30, eci) + rest));
    tlv_bytes(0x30, tlv_bytes(0x06, content_type) + tlv_bytes(0xA0, tlv_bytes(0x30, sd)))
}

/// What is read out of a token without verification is the content that it
/// encapsulates, and what is extracted is the TSTInfo in it.
pub proof fn law_token_content_read_back(
    content_type: Seq<u8>,
    version: Seq<u8>,
    digests: Seq<u8>,
    econtent_type: Seq<u8>,
    content: Seq<u8>,
    rest: Seq<u8>,
)
    requires
        content_type.len() <= 0x1000,
        version.len() <= 0x1000,
        digests.len() <= 0x10_0000,
        econtent_type.len() <= 0x1000,
        content.len() <= 0x100_0000,
        rest.len() <= 0x400_0000,
    ensures
        ({
            let token = token_bytes(
                content_type,
                version,
                digests,
                econtent_type,
                content,
                rest,
            );
            &&& token_content(token) == Ok::<Seq<u8>, TspError>(content)
            &&& token_tst_info(token) == tst_info(content)
        }),
{
    let eci = tlv_bytes(0x06, econtent_type) + tlv_bytes(0xA0, tlv_bytes(0x04, content));
    let sd = tlv_bytes(0x02, version) + (tlv_bytes(0x31, digests) + (tlv_bytes(0x30, eci) + rest));
    lemma_content_written(econtent_type, content);
    lemma_info_written(version, digests, eci, rest);
    lemma_signed_data_written(content_type, sd);
}

proof fn lemma_content_written(econtent_type: Seq<u8>, content: Seq<u8>)
    requires
        econtent_type.len() <= 0x1000,
        content.len() <= 0x100_0000,
    ensures
        ({
            let eci = tlv_bytes(0x06, econtent_type) + tlv_bytes(0xA0, tlv_bytes(0x04, content));
            encapsulated_content(eci) == Ok::<Seq<u8>, TspError>(content) && eci.len()
                <= 0x101_0000
        }),
{
    lemma_elements();
    lemma_short();
}

proof fn lemma_info_written(version: Seq<u8>, digests: Seq<u8>, eci: Seq<u8>, rest: Seq<u8>)
    requires
        version.len() <= 0x1000,
        digests.len() <= 0x10_0000,
        eci.len() <= 0x101_0000,
        rest.len() <= 0x400_0000,
    ensures
        ({
            let sd = tlv_bytes(0x02, version) + (tlv_bytes(0x31, digests) + (tlv_bytes(0x30, eci)
                + rest));
            encapsulated_info(sd) == Ok::<Seq<u8>, TspError>(eci) && sd.len() <= 0x600_0000
        }),
{
    lemma_elements();
    lemma_short();
}

proof fn lemma_signed_data_written(content_type: Seq<u8>, sd: Seq<u8>)
    requires
        content_type.len() <= 0x1000,
        sd.len() <= 0x600_0000,
    ensures
        token_signed_data(
            tlv_bytes(0x30, tlv_bytes(0x06, content_type) + tlv_bytes(0xA0, tlv_bytes(0x30, sd))),
        ) == Ok::<Seq<u8>, TspError>(sd),
{
    lemma_elements();
    lemma_short();
}

/// An accuracy is accepted exactly where its milliseconds and its microseconds, as far
/// as they are written, lie between 1 and 999.
pub proof fn law_accuracy(seconds: Option<u64>, millis: Option<u16>, micros: Option<u16>)
    ensures
        tst_accuracy(
            accuracy_element(0x02, match seconds {
                Some(n) => Some(n as nat),
                None => None,
            }) + (accuracy_element(0x80, match millis {
                Some(n) => Some(n as nat),
                None => None,
            }) + accuracy_element(0x81, match micros {
                Some(n) => Some(n as nat),
                None => None,
            })),
            0,
        ) is Ok <==> (millis matches Some(n) ==> 1 <= n <= 999) && (micros matches Some(n) ==> 1
            <= n <= 999),
{
    let s2 = accuracy_element(0x81, match micros {
        Some(n) => Some(n as nat),
        None => None,
    });
    let none = Seq::<u8>::empty();
    assert(s2 + none =~= s2);
    let m2 = match micros {
        Some(n) => Some(n as nat),
        None => None,
    };
    let m1 = match millis {
        Some(n) => Some(n as nat),
        None => None,
    };
    let m0 = match seconds {
        Some(n) => Some(n as nat),
        None => None,
    };
    let s1 = accuracy_element(0x80, m1) + s2;
    lemma_accuracy_step(0x81, m2, none, 0);
    lemma_accuracy_step(0x81, m2, none, 1);
    lemma_accuracy_step(0x81, m2, none, 2);
    lemma_accuracy_step(0x80, m1, s2, 0);
    lemma_accuracy_step(0x80, m1, s2, 1);
    lemma_accuracy_step(0x02, m0, s1, 0);
}

/// A number of an accuracy as it is written, where it is.
pub open spec fn accuracy_element(tag: u8, n: Option<nat>) -> Seq<u8> {
    optional_element(
        tag,
        match n {
            Some(v) => Some(integer_contents(v)),
            None => None,
        },
    )
}

proof fn lemma_accuracy_step(tag: u8, n: Option<nat>, rest: Seq<u8>, last: nat)
    requires
        last < accuracy_rank(tag),
        n matches Some(v) ==> v <= u64::MAX && (tag != 0x02 ==> v <= u16::MAX),
    ensures
        n is None ==> accuracy_element(tag, n) + rest == rest,
        n is Some ==> (tst_accuracy(accuracy_element(tag, n) + rest, last) is Ok <==> (tag == 0x02
            || 1 <= n->0 <= 999) && tst_accuracy(rest, accuracy_rank(tag)) is Ok),
{
    lemma_written();
    lemma_short();
    match n {
        Some(v) => {
            lemma_be_len_u64(v as u64);
            law_integer_contents(v);
            assert(tlv_bytes(tag, integer_contents(v)).len() <= 100);
        },
        None => {
            assert(accuracy_element(tag, n) + rest =~= rest);
        },
    }
}

/// An extension of a TSTInfo is accepted exactly where it is not critical and no other
/// has its identifier.
pub proof fn law_tst_extension(
    oid: Seq<u8>,
    critical: bool,
    value: Seq<u8>,
    rest: Seq<u8>,
    seen: Seq<Seq<u8>>,
)
    requires
        oid_valid(oid),
        value.len() <= 0x10_0000,
    ensures
        tst_extension_list(
            tlv_bytes(
                0x30,
                tlv_bytes(0x06, oid) + (flag_element(critical) + tlv_bytes(0x04, value)),
            ) + rest,
            seen,
        ) is Ok <==> !critical && !seen.contains(oid) && tst_extension_list(
            rest,
            seen.push(oid),
        ) is Ok,
{
    law_extension_read_back(oid, critical, value);
    lemma_written();
    lemma_short();
    assert(oid.len() <= 39) by {
        reveal(oid_valid);
    }
}

/// A field that is read was written with its tag and its contents, and what follows is
/// the rest.
pub proof fn lemma_field_is_written()
    ensures
        forall|s: Seq<u8>, tag: u8, context: &'static str|
            #[trigger] tst_field(s, tag, context) matches Ok((contents, rest)) ==> s == tlv_bytes(
                tag,
                contents,
            ) + rest,
{
    reveal(tst_field);
    assert forall|s: Seq<u8>, tag: u8, context: &'static str|
        #[trigger] tst_field(s, tag, context) is Ok implies s == tlv_bytes(
        tag,
        tst_field(s, tag, context)->Ok_0.0,
    ) + tst_field(s, tag, context)->Ok_0.1 by {
        let (contents, rest) = tst_field(s, tag, context)->Ok_0;
        crate::der_utils::lemma_tlv_shrinks(s);
        let front = s.take(s.len() - rest.len());
        crate::der_utils::lemma_tlv_shrinks(front);
        assert(s =~= front + rest);
        assert(front[0] == s[0]);
    }
}

/// A hash that is accepted was written as its algorithm, without parameters or with
/// NULL, and its value, which has the size of the algorithm, with nothing behind it.
pub proof fn law_imprint_is_written(body: Seq<u8>)
    ensures
        message_imprint(body) matches Ok((alg, hash)) ==> hash.len() == digest_size(alg)
            && exists|identifier: Seq<u8>| #[trigger]
            algorithm_id_of(tlv_bytes(0x30, identifier)) matches Some(a) && a.oid == digest_oid(alg)
                && (a.parameters matches Some(p) ==> p == seq![0x05u8, 0x00u8]) && body
                == tlv_bytes(0x30, identifier) + tlv_bytes(0x04, hash),
{
    lemma_field_is_written();
    if let Ok((alg, hash)) = message_imprint(body) {
        let (identifier, rest) = tst_field(body, 0x30, "messageImprint hashAlgorithm")->Ok_0;
        let a = algorithm_id_of(tlv_bytes(0x30, identifier))->0;
        law_digest_oid(alg, a.oid);
        assert(DER_NULL@ =~= seq![0x05u8, 0x00u8]);
        let (h, trailing) = tst_field(rest, 0x04, "messageImprint hashedMessage")->Ok_0;
        assert(rest =~= tlv_bytes(0x04, hash));
    }
}

/// A TSTInfo that is accepted was written as version 1, the policy, the imprint, the
/// serial number, the time and the optional fields, with nothing behind them; and what
/// is read of it is what was written.
#[verifier::rlimit(30)]
pub proof fn law_tst_info_is_written(s: Seq<u8>)
    ensures
        tst_info(s) matches Ok(info) ==> exists|policy: Seq<u8>, imprint: Seq<u8>, optional: Seq<u8>|
            {
                &&& #[trigger] tst_info_bytes(
                    policy,
                    imprint,
                    info.serial_number,
                    info.gen_time_der,
                    optional,
                ) == s
                &&& oid_valid(policy) && info.policy_oid == Some(oid_text(policy))
                &&& message_imprint(imprint) == Ok::<(DigestAlgorithm, Seq<u8>), TspError>(
                    (info.hash_algorithm, info.message_hash),
                )
                &&& int_canonical(info.serial_number)
                &&& tst_optional(optional, 0, None) == Ok::<Option<u64>, TspError>(info.nonce)
            },
{
    lemma_field_is_written();
    if let Ok(info) = tst_info(s) {
        let (sequence, trailing) = tst_field(s, 0x30, "TSTInfo")->Ok_0;
        assert(s =~= tlv_bytes(0x30, sequence));
        let (version, s1) = tst_field(sequence, 0x02, "TSTInfo version")->Ok_0;
        let (policy, s2) = tst_field(s1, 0x06, "TSTInfo policy")->Ok_0;
        let (imprint, s3) = tst_field(s2, 0x30, "TSTInfo messageImprint")->Ok_0;
        let (serial, s4) = tst_field(s3, 0x02, "TSTInfo serialNumber")->Ok_0;
        let (time, optional) = tst_field(s4, 0x18, "TSTInfo genTime")->Ok_0;
        lemma_one(version);
        assert(sequence == tlv_bytes(0x02, seq![1u8]) + (tlv_bytes(0x06, policy) + (tlv_bytes(
            0x30,
            imprint,
        ) + (tlv_bytes(0x02, serial) + (tlv_bytes(0x18, time) + optional)))));
        assert(tst_info_bytes(policy, imprint, info.serial_number, info.gen_time_der, optional)
            == s);
    }
}

proof fn lemma_one(c: Seq<u8>)
    requires
        uint_within(c, u64::MAX as nat) == Some(1nat),
    ensures
        c == seq![1u8],
{
    crate::bytes::law_same_number(c, seq![1u8]);
    reveal_with_fuel(crate::bytes::be_value, 3);
    assert(seq![1u8].drop_last() =~= Seq::<u8>::empty());
    assert(crate::bytes::be_value(seq![1u8]) == 1);
    assert(crate::bytes::without_leading_zeros(seq![1u8]) == seq![1u8]);
    if c.len() > 1 && c[0] == 0 {
        reveal_with_fuel(crate::bytes::without_leading_zeros, 3);
        assert(c.skip(1)[0] == c[1]);
        assert(crate::bytes::without_leading_zeros(c) == c.skip(1));
    }
}

/// A TSTInfo as it is written.
pub open spec fn tst_info_bytes(
    policy: Seq<u8>,
    imprint: Seq<u8>,
    serial: Seq<u8>,
    time: Seq<u8>,
    optional: Seq<u8>,
) -> Seq<u8> {
    tlv_bytes(
        0x30,
        tlv_bytes(0x02, seq![1u8]) + (tlv_bytes(0x06, policy) + (tlv_bytes(0x30, imprint) + (
        tlv_bytes(0x02, serial) + (tlv_bytes(0x18, time) + optional)))),
    )
}

/// The optional fields of a TSTInfo stand in their order, each once at most; and no
/// others stand among them.
pub proof fn law_optional_order(a: u8, b: u8, x: Seq<u8>, y: Seq<u8>, rest: Seq<u8>)
    requires
        known_tag(a) && known_tag(b),
        x.len() <= 0x10_0000,
        y.len() <= 0x10_0000,
    ensures
        tst_optional(tlv_bytes(a, x) + (tlv_bytes(b, y) + rest), 0, None) is Ok ==> {
            ||| a == 0x30 && (b == 0x01 || b == 0x02 || b == 0xA0 || b == 0xA1)
            ||| a == 0x01 && (b == 0x02 || b == 0xA0 || b == 0xA1)
            ||| a == 0x02 && (b == 0xA0 || b == 0xA1)
            ||| a == 0xA0 && b == 0xA1
        },
{
    reveal_with_fuel(tst_optional, 3);
    lemma_written();
    lemma_short();
    let s = tlv_bytes(a, x) + (tlv_bytes(b, y) + rest);
    assert(s[0] == a);
    assert((tlv_bytes(b, y) + rest)[0] == b);
}

/// The numbers of an accuracy stand in their order, each once at most.
pub proof fn law_accuracy_order(a: u8, b: u8, x: Seq<u8>, y: Seq<u8>, rest: Seq<u8>)
    requires
        known_tag(a) && known_tag(b),
        x.len() <= 0x10_0000,
        y.len() <= 0x10_0000,
    ensures
        tst_accuracy(tlv_bytes(a, x) + (tlv_bytes(b, y) + rest), 0) is Ok ==> {
            ||| a == 0x02 && (b == 0x80 || b == 0x81)
            ||| a == 0x80 && b == 0x81
        },
{
    reveal_with_fuel(tst_accuracy, 3);
    lemma_written();
    lemma_short();
    let s = tlv_bytes(a, x) + (tlv_bytes(b, y) + rest);
    assert(s[0] == a);
    assert((tlv_bytes(b, y) + rest)[0] == b);
}

/// A nonce of a TSTInfo fits in 64 bits, and an ordering is a boolean.
pub proof fn law_optional_contents(tag: u8, c: Seq<u8>)
    requires
        known_tag(tag),
        c.len() <= 0x10_0000,
        tst_optional(tlv_bytes(tag, c), 0, None) is Ok,
    ensures
        tag == 0x02 ==> uint_canonical(c) && crate::bytes::be_value(c) <= u64::MAX && tst_optional(
            tlv_bytes(tag, c),
            0,
            None,
        ) == Ok::<Option<u64>, TspError>(Some(crate::bytes::be_value(c) as u64)),
        tag != 0x02 ==> tst_optional(tlv_bytes(tag, c), 0, None) == Ok::<Option<u64>, TspError>(
            None,
        ),
        tag == 0x01 ==> c == seq![0x00u8] || c == seq![0xFFu8],
        tag == 0xA0 ==> c.len() > 0 && (c[0] == 0xA0 || c[0] == 0x81 || c[0] == 0x82 || c[0] == 0xA3
            || c[0] == 0xA4 || c[0] == 0xA5 || c[0] == 0x86 || c[0] == 0x87 || c[0] == 0x88),
        tag == 0xA1 ==> c.len() > 0,
{
    reveal_with_fuel(tst_optional, 3);
    lemma_written();
    lemma_short();
}

/// The name of an authority in a TSTInfo is one GeneralName of any of the nine kinds,
/// and nothing behind it.
pub proof fn law_authority_name_form(tag: u8, c: Seq<u8>, rest: Seq<u8>)
    requires
        known_tag(tag),
        c.len() <= 0x10_0000,
    ensures
        tst_tsa_name(tlv_bytes(tag, c) + rest) is Ok <==> rest.len() == 0 && (tag == 0xA0 || tag
            == 0x81 || tag == 0x82 || tag == 0xA3 || tag == 0xA4 || tag == 0xA5 || tag == 0x86
            || tag == 0x87 || tag == 0x88),
{
    lemma_written();
    lemma_short();
}

/// A response as it is written around its status and its token.
pub open spec fn response_frame(
    number: Seq<u8>,
    fields: Seq<u8>,
    token: Option<Seq<u8>>,
) -> Seq<u8> {
    tlv_bytes(
        0x30,
        tlv_bytes(0x30, tlv_bytes(0x02, number) + fields) + (match token {
            Some(t) => t,
            None => Seq::empty(),
        }),
    )
}

/// A response that is accepted was written as its status with its fields and, where
/// there is one, the token, with nothing behind it; and the token is handed on as it
/// was written.
pub proof fn law_response_is_written(s: Seq<u8>)
    ensures
        timestamp_response(s) matches Ok(r) ==> exists|number: Seq<u8>, fields: Seq<u8>|
            {
                &&& s == #[trigger] response_frame(number, fields, r.token_der)
                &&& uint_canonical(number) && crate::bytes::be_value(number) <= u64::MAX
                &&& r.status == status_of_code(crate::bytes::be_value(number) as u64)
                &&& status_fields(fields, None, None) == Ok::<
                    (Option<Seq<char>>, Option<Seq<u8>>),
                    TspError,
                >((r.status_string, r.failure_info))
            },
{
    lemma_field_is_written();
    if let Ok(r) = timestamp_response(s) {
        let (response, trailing) = tst_field(s, 0x30, "TimeStampResp")->Ok_0;
        assert(s =~= tlv_bytes(0x30, response));
        let (info, rest) = tst_field(response, 0x30, "PKIStatusInfo")->Ok_0;
        let (number, fields) = tst_field(info, 0x02, "PKIStatus")->Ok_0;
        let token = match r.token_der {
            Some(t) => t,
            None => Seq::empty(),
        };
        assert(token =~= rest);
        assert(s == response_frame(number, fields, r.token_der));
    }
}

/// A status text comes once at most, and before what failed.
pub proof fn law_status_field_order(a: Seq<u8>, text: Seq<char>, failure: Option<Seq<u8>>, rest: Seq<u8>)
    requires
        a.len() <= 0x10_0000,
    ensures
        status_fields(tlv_bytes(0x30, a) + rest, Some(text), failure) is Err,
        forall|tag: u8|
            known_tag(tag) && tag != 0x30 && tag != 0x03 ==> status_fields(
                #[trigger] (tlv_bytes(tag, a) + rest),
                None,
                None,
            ) is Err,
        status_fields(tlv_bytes(0x30, Seq::empty()) + rest, None, None) is Err,
{
    lemma_written();
    lemma_short();
    let e = tlv_bytes(0x30, Seq::<u8>::empty()) + rest;
    assert(e[0] == 0x30);
}

/// What is read out of a token is the OCTET STRING that its SignedData encapsulates.
pub proof fn law_token_content_is_encapsulated(s: Seq<u8>)
    ensures
        token_content(s) matches Ok(content) ==> {
            &&& tlv(s) matches Ok((a, info, _))
            &&& tlv(info) matches Ok((_, _, r1))
            &&& tlv(r1) matches Ok((b, wrapped, _))
            &&& tlv(wrapped) matches Ok((c, data, _))
            &&& tlv(data) matches Ok((_, _, r2))
            &&& tlv(r2) matches Ok((_, _, r3))
            &&& tlv(r3) matches Ok((_, eci, _))
            &&& tlv(eci) matches Ok((_, _, r4))
            &&& tlv(r4) matches Ok((d, ec, _))
            &&& tlv(ec) matches Ok((e, octets, _))
            &&& a == 0x30 && b == 0xA0 && c == 0x30 && d == 0xA0 && e == 0x04 && octets == content
        },
{
}

/// What failed is a bit string without stray bits.
pub proof fn law_failure_bits(bits: Seq<u8>, text: Option<Seq<char>>)
    requires
        bits.len() <= 0x10_0000,
    ensures
        status_fields(tlv_bytes(0x03, bits), text, None) is Ok <==> (bit_string(bits) matches Some((
            unused,
            octets,
        )) && !nonzero_padding(unused, octets)),
        status_fields(tlv_bytes(0x03, bits), text, None) matches Ok((t, f)) ==> t == text && f
            == Some(bits),
{
    reveal_with_fuel(status_fields, 2);
    lemma_written();
    lemma_short();
}

/// The token of a response is one SEQUENCE, and there is one only with a status of
/// success.
pub proof fn law_token_is_one_element(s: Seq<u8>)
    ensures
        timestamp_response(s) matches Ok(r) ==> (r.token_der matches Some(t) ==> r.status.success()
            && exists|c: Seq<u8>| t == #[trigger] tlv_bytes(0x30, c)),
{
    lemma_field_is_written();
    if let Ok(r) = timestamp_response(s) {
        if let Some(t) = r.token_der {
            let (c, after) = tst_field(t, 0x30, "TimeStampToken SEQUENCE")->Ok_0;
            assert(t =~= tlv_bytes(0x30, c));
        }
    }
}

/// A hash has as many octets as its algorithm has bits, over eight.
pub proof fn law_digest_sizes(alg: DigestAlgorithm)
    ensures
        alg is Sha256 || alg is Sha3_256 ==> digest_size(alg) * 8 == 256,
        alg is Sha384 || alg is Sha3_384 ==> digest_size(alg) * 8 == 384,
        alg is Sha512 || alg is Sha3_512 ==> digest_size(alg) * 8 == 512,
{
}

} // verus!
