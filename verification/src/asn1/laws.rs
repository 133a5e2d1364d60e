//! What is read of the ASN.1 types, in terms of how they are written.

use vstd::prelude::*;

#[allow(unused_imports)]
use crate::asn1::{
    algorithm_id_of, basic_constraints_of, bit_string, canonical_contents, default_false,
    extended_key_usage_of, extension_elements, extension_of, extensions_of, first_canonical,
    key_usage_of, known_tag, nonzero_padding, oid_elements, oid_valid, uint_within, AlgorithmIdView,
    ExtensionView, MAX_DER_LENGTH,
};
#[allow(unused_imports)]
use crate::bytes::be_value;
#[allow(unused_imports)]
use crate::der_utils::{
    der_length, integer_contents, law_integer_contents, law_tlv_round_trip, lemma_tlv_shrinks,
    tagged_value, tlv, tlv_bytes, DerError,
};

verus! {

/// Elements that were written are read back, alone and before others.
pub proof fn lemma_elements()
    ensures
        forall|tag: u8, contents: Seq<u8>, after: Seq<u8>|
            contents.len() <= u32::MAX ==> #[trigger] tlv(tlv_bytes(tag, contents) + after) == Ok::<
                (u8, Seq<u8>, Seq<u8>),
                DerError,
            >((tag, contents, after)),
        forall|tag: u8, contents: Seq<u8>|
            contents.len() <= u32::MAX ==> #[trigger] tlv(tlv_bytes(tag, contents)) == Ok::<
                (u8, Seq<u8>, Seq<u8>),
                DerError,
            >((tag, contents, Seq::<u8>::empty())),
        forall|tag: u8, contents: Seq<u8>|
            known_tag(tag) && tlv_bytes(tag, contents).len() <= MAX_DER_LENGTH
                ==> #[trigger] canonical_contents(tlv_bytes(tag, contents)) == Some(contents),
        forall|tag: u8, contents: Seq<u8>, after: Seq<u8>|
            known_tag(tag) && contents.len() <= u32::MAX ==> #[trigger] first_canonical(
                tlv_bytes(tag, contents) + after,
            ) == Some((tag, contents, after)),
        forall|tag: u8, contents: Seq<u8>|
            known_tag(tag) && contents.len() <= u32::MAX ==> #[trigger] first_canonical(
                tlv_bytes(tag, contents),
            ) == Some((tag, contents, Seq::<u8>::empty())),
        forall|tag: u8, contents: Seq<u8>|
            (#[trigger] tlv_bytes(tag, contents)).len() > contents.len() && tlv_bytes(tag, contents)[0]
                == tag,
        forall|tag: u8, contents: Seq<u8>, after: Seq<u8>|
            (#[trigger] (tlv_bytes(tag, contents) + after))[0] == tag,
{
    assert forall|tag: u8, contents: Seq<u8>, after: Seq<u8>|
        contents.len() <= u32::MAX implies #[trigger] tlv(tlv_bytes(tag, contents) + after) == Ok::<
        (u8, Seq<u8>, Seq<u8>),
        DerError,
    >((tag, contents, after)) by {
        law_tlv_round_trip(tag, contents, after);
    }
    assert forall|tag: u8, contents: Seq<u8>|
        contents.len() <= u32::MAX implies #[trigger] tlv(tlv_bytes(tag, contents)) == Ok::<
        (u8, Seq<u8>, Seq<u8>),
        DerError,
    >((tag, contents, Seq::<u8>::empty())) by {
        law_tlv_round_trip(tag, contents, Seq::empty());
        assert(tlv_bytes(tag, contents) + Seq::<u8>::empty() =~= tlv_bytes(tag, contents));
    }
    assert forall|tag: u8, contents: Seq<u8>|
        known_tag(tag) && contents.len() <= u32::MAX implies #[trigger] first_canonical(
        tlv_bytes(tag, contents),
    ) == Some((tag, contents, Seq::<u8>::empty())) by {
        assert(tlv_bytes(tag, contents) + Seq::<u8>::empty() =~= tlv_bytes(tag, contents));
    }
}

/// The identifier and the parameters of an algorithm identifier are those that were
/// written, and without parameters none are found.
pub proof fn law_algorithm_id_read_back(oid: Seq<u8>, tag: u8, parameters: Seq<u8>)
    requires
        oid_valid(oid),
        known_tag(tag),
        parameters.len() <= 0x100_0000,
    ensures
        algorithm_id_of(tlv_bytes(0x30, tlv_bytes(0x06, oid))) == Some(
            AlgorithmIdView { oid, parameters: None },
        ),
        algorithm_id_of(
            tlv_bytes(0x30, tlv_bytes(0x06, oid) + tlv_bytes(tag, parameters)),
        ) == Some(AlgorithmIdView { oid, parameters: Some(tlv_bytes(tag, parameters)) }),
{
    reveal(algorithm_id_of);
    lemma_elements();
    lemma_short();
    assert(oid.len() <= 39) by {
        reveal(oid_valid);
    }
}

/// An element is no longer than its contents and the octets of a length.
pub proof fn lemma_short()
    ensures
        forall|tag: u8, contents: Seq<u8>|
            contents.len() <= u32::MAX ==> (#[trigger] tlv_bytes(tag, contents)).len()
                <= contents.len() + 6,
{
    assert forall|tag: u8, contents: Seq<u8>|
        contents.len() <= u32::MAX implies (#[trigger] tlv_bytes(tag, contents)).len()
        <= contents.len() + 6 by {
        crate::der_utils::lemma_be_len_u64(contents.len() as u64);
    }
}

/// A flag as it is written where it is not the default.
pub open spec fn flag_element(flag: bool) -> Seq<u8> {
    if flag {
        tlv_bytes(0x01, seq![0xFFu8])
    } else {
        Seq::empty()
    }
}

/// The identifier, the criticality and the value of an extension are those that were
/// written.
pub proof fn law_extension_read_back(oid: Seq<u8>, critical: bool, value: Seq<u8>)
    requires
        oid_valid(oid),
        value.len() <= 0x100_0000,
    ensures
        extension_of(
            tlv_bytes(
                0x30,
                tlv_bytes(0x06, oid) + (flag_element(critical) + tlv_bytes(0x04, value)),
            ),
        ) == Some(ExtensionView { extn_id: oid, critical, extn_value: value }),
{
    reveal(extension_of);
    lemma_elements();
    lemma_short();
    assert(oid.len() <= 39) by {
        reveal(oid_valid);
    }
    if !critical {
        assert(flag_element(critical) + tlv_bytes(0x04, value) =~= tlv_bytes(0x04, value));
    }
    assert(default_false(flag_element(critical) + tlv_bytes(0x04, value)) == Some(
        (critical, tlv_bytes(0x04, value)),
    ));
}

/// Extensions are read one after the other: the first, and then the rest.
pub proof fn law_extensions_in_order(first: Seq<u8>, rest: Seq<u8>, found: Seq<ExtensionView>)
    requires
        first.len() <= 0x100_0000,
    ensures
        extension_elements(tlv_bytes(0x30, first) + rest, found) == (match extension_of(
            tlv_bytes(0x30, first),
        ) {
            None => None,
            Some(e) => extension_elements(rest, found.push(e)),
        }),
        extension_elements(Seq::empty(), found) == Some(found),
{
    lemma_elements();
}

/// The list of extensions is that of the elements of the SEQUENCE.
pub proof fn law_extension_list(body: Seq<u8>)
    requires
        body.len() <= 0x100_0000,
    ensures
        extensions_of(tlv_bytes(0x30, body)) == extension_elements(body, Seq::empty()),
{
    reveal(extensions_of);
    lemma_elements();
    lemma_short();
}

/// A certificate authority is one whose basic constraints say so.
pub proof fn law_basic_constraints_read_back(ca: bool)
    ensures
        basic_constraints_of(tlv_bytes(0x30, flag_element(ca))) == Some((ca, None::<u8>)),
{
    reveal(basic_constraints_of);
    lemma_elements();
    lemma_short();
}

/// The purposes of an extended key usage as they are written.
pub open spec fn purposes_bytes(purposes: Seq<Seq<u8>>) -> Seq<u8>
    decreases purposes.len(),
{
    if purposes.len() == 0 {
        Seq::empty()
    } else {
        tlv_bytes(0x06, purposes[0]) + purposes_bytes(purposes.skip(1))
    }
}

/// The purposes of an extended key usage are those that were written, in their order.
pub proof fn law_purposes_read_back(purposes: Seq<Seq<u8>>, found: Seq<Seq<u8>>)
    requires
        forall|i: int| 0 <= i < purposes.len() ==> oid_valid(#[trigger] purposes[i]),
    ensures
        oid_elements(purposes_bytes(purposes), found) == Some(found + purposes),
    decreases purposes.len(),
{
    lemma_elements();
    if purposes.len() == 0 {
        assert(found + purposes =~= found);
    } else {
        assert(oid_valid(purposes[0]));
        assert(purposes[0].len() <= 39) by {
            reveal(oid_valid);
        }
        let rest = purposes.skip(1);
        assert forall|i: int| 0 <= i < rest.len() implies oid_valid(#[trigger] rest[i]) by {
            assert(rest[i] == purposes[i + 1]);
        }
        law_purposes_read_back(rest, found.push(purposes[0]));
        assert(found.push(purposes[0]) + rest =~= found + purposes);
    }
}

/// An extended key usage holds the purposes that were written.
pub proof fn law_extended_key_usage_read_back(purposes: Seq<Seq<u8>>)
    requires
        forall|i: int| 0 <= i < purposes.len() ==> oid_valid(#[trigger] purposes[i]),
        purposes_bytes(purposes).len() <= 0x100_0000,
    ensures
        extended_key_usage_of(tlv_bytes(0x30, purposes_bytes(purposes))) == Some(purposes),
{
    reveal(extended_key_usage_of);
    lemma_elements();
    lemma_short();
    law_purposes_read_back(purposes, Seq::empty());
    assert(Seq::<Seq<u8>>::empty() + purposes =~= purposes);
}

/// A key usage of one octet says by its first bit whether the key makes digital
/// signatures, and by its second whether it serves non-repudiation.
pub proof fn law_key_usage_bits(octet: u8)
    ensures
        key_usage_of(tlv_bytes(0x03, seq![0u8, octet])) == Some(
            (octet >= 0x80, octet % 0x80 >= 0x40),
        ),
{
    lemma_elements();
    lemma_short();
    assert(seq![0u8, octet].skip(1) =~= seq![octet]);
}

/// An element that is read stands at the start of the octets: its tag comes first, its
/// contents stand behind its length, and the rest follows them.
pub proof fn law_element_is_a_prefix(s: Seq<u8>)
    ensures
        tlv(s) matches Ok((tag, contents, rest)) ==> s.len() >= 2 + contents.len() + rest.len()
            && s[0] == tag && s.skip(s.len() - contents.len() - rest.len()) == contents + rest,
{
    if let Ok((tag, contents, rest)) = tlv(s) {
        lemma_tlv_shrinks(s);
        let (len, octets) = der_length(s.skip(1))->Ok_0;
        assert(s.skip(s.len() - contents.len() - rest.len()) =~= contents + rest);
    }
}

/// The value under a tag is that of the first element with the tag.
pub proof fn law_first_tagged_value(tag: u8, contents: Seq<u8>, rest: Seq<u8>, wanted: u8)
    requires
        contents.len() <= u32::MAX,
    ensures
        tagged_value(tlv_bytes(tag, contents) + rest, wanted) == (if tag == wanted {
            Some(contents)
        } else {
            tagged_value(rest, wanted)
        }),
        tagged_value(Seq::empty(), wanted) is None,
{
    lemma_elements();
}

/// The unused bits of a bit string are zero exactly where the last octet is a multiple
/// of the power of two that they make.
pub proof fn law_padding(unused: u8, octets: Seq<u8>)
    requires
        unused <= 7,
        octets.len() > 0,
    ensures
        unused == 0 ==> !nonzero_padding(unused, octets),
        octets.last() == 0 ==> !nonzero_padding(unused, octets),
        octets.last() == 1 ==> (nonzero_padding(unused, octets) <==> unused > 0),
        octets.last() == 0x80 ==> !nonzero_padding(unused, octets),
        octets.last() == 2 ==> (nonzero_padding(unused, octets) <==> unused > 1),
        octets.last() == 4 ==> (nonzero_padding(unused, octets) <==> unused > 2),
        octets.last() == 8 ==> (nonzero_padding(unused, octets) <==> unused > 3),
        octets.last() == 0x10 ==> (nonzero_padding(unused, octets) <==> unused > 4),
        octets.last() == 0x20 ==> (nonzero_padding(unused, octets) <==> unused > 5),
        octets.last() == 0x40 ==> (nonzero_padding(unused, octets) <==> unused > 6),
{
}

/// A bit string is its octets behind the one that counts its unused bits.
pub proof fn law_bit_string(unused: u8, octets: Seq<u8>)
    requires
        octets.len() <= 0x100_0000,
    ensures
        bit_string(seq![unused] + octets) == (if unused <= 7 && (unused > 0 ==> octets.len() > 0) {
            Some((unused, octets))
        } else {
            None
        }),
        bit_string(Seq::empty()) is None,
{
    assert((seq![unused] + octets).skip(1) =~= octets);
}

/// A number fits exactly where it is written in the shortest form, without a sign, and
/// is within the limit.
pub proof fn law_numbers(n: nat, max: nat)
    ensures
        uint_within(integer_contents(n), max) == (if n <= max {
            Some(n)
        } else {
            None
        }),
        forall|c: Seq<u8>| #[trigger]
            uint_within(c, max) == Some(n) ==> n <= max && be_value(c) == n && c[0] < 0x80 && (
            c.len() > 1 && c[0] == 0 ==> c[1] >= 0x80),
{
    law_integer_contents(n);
}

} // verus!
