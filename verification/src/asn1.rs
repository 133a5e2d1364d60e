//! Decoding of the ASN.1 types that the validation rules read.
//!
//! The functions here call the `der`, `spki`, `const-oid` and `x509-cert` crates
//! and hand their results on as plain values.

pub mod laws;

use const_oid::ObjectIdentifier;
use der::asn1::{AnyRef, BitStringRef, GeneralizedTime, IntRef, UintRef};
use der::{Decode, Encode, Tag};
use vstd::prelude::*;
use x509_cert::ext::pkix;

use crate::time::CivilTime;
#[allow(unused_imports)]
use crate::agrees_opt;
#[allow(unused_imports)]
use crate::bytes::{be_value, views};
#[allow(unused_imports)]
use crate::der_utils::{lemma_tlv_shrinks, tlv, tlv_bytes};
#[allow(unused_imports)]
use crate::opt_view;
#[allow(unused_imports)]
use crate::text::decimal_text;
#[allow(unused_imports)]
use crate::time::generalized_time;

verus! {

/// The most octets that the `der` crate reads in one piece.
pub const MAX_DER_LENGTH: usize = 0xFFF_FFFF;

/// The tag octets that the `der` crate knows: the universal types, and every
/// application, context-specific and private tag of one octet.
pub open spec fn known_tag(b: u8) -> bool {
    ||| 0x01 <= b <= 0x06
    ||| b == 0x09
    ||| b == 0x0A
    ||| b == 0x0C
    ||| 0x12 <= b <= 0x18
    ||| b == 0x1A
    ||| b == 0x1E
    ||| b == 0x30
    ||| b == 0x31
    ||| (b >= 0x40 && b % 32 != 31)
}

/// The contents of `s` where `s` is exactly one canonically encoded element.
pub open spec fn canonical_contents(s: Seq<u8>) -> Option<Seq<u8>> {
    match tlv(s) {
        Err(_) => None,
        Ok((tag, body, rest)) => if rest.len() == 0 && known_tag(tag) && s == tlv_bytes(tag, body)
            && s.len() <= MAX_DER_LENGTH {
            Some(body)
        } else {
            None
        },
    }
}

/// The contents of `s` where `s` is exactly one canonically encoded SEQUENCE.
pub open spec fn sequence_contents(s: Seq<u8>) -> Option<Seq<u8>> {
    if s.len() > 0 && s[0] == 0x30 {
        canonical_contents(s)
    } else {
        None
    }
}

/// The canonically encoded element at the start of `s`: its tag, its contents, and
/// what follows it.
pub open spec fn first_canonical(s: Seq<u8>) -> Option<(u8, Seq<u8>, Seq<u8>)> {
    match tlv(s) {
        Err(_) => None,
        Ok((tag, body, rest)) => if known_tag(tag) && s == tlv_bytes(tag, body) + rest {
            Some((tag, body, rest))
        } else {
            None
        },
    }
}

/// The BOOLEAN at the start of `s`, false where there is none, and what follows it.
pub open spec fn default_false(s: Seq<u8>) -> Option<(bool, Seq<u8>)> {
    if s.len() == 0 || s[0] != 0x01 {
        Some((false, s))
    } else {
        match first_canonical(s) {
            None => None,
            Some((_, contents, rest)) => if contents == seq![0xFFu8] {
                Some((true, rest))
            } else if contents == seq![0x00u8] {
                Some((false, rest))
            } else {
                None
            },
        }
    }
}

/// The contents of an INTEGER are a nonnegative number in its shortest form.
pub open spec fn uint_canonical(c: Seq<u8>) -> bool {
    &&& c.len() >= 1
    &&& c[0] < 0x80
    &&& c.len() > 1 && c[0] == 0 ==> c[1] >= 0x80
}

/// The contents of an INTEGER are a number in its shortest form.
pub open spec fn int_canonical(c: Seq<u8>) -> bool {
    &&& c.len() >= 1
    &&& c.len() > 1 && c[0] == 0 ==> c[1] >= 0x80
    &&& c.len() > 1 && c[0] == 0xFF ==> c[1] < 0x80
}

/// The number that the contents of an INTEGER hold, where it is canonical and
/// at most `max`.
pub open spec fn uint_within(c: Seq<u8>, max: nat) -> Option<nat> {
    if uint_canonical(c) && be_value(c) <= max {
        Some(be_value(c))
    } else {
        None
    }
}

/// The unused bits and the octets that the contents of a BIT STRING hold.
pub open spec fn bit_string(c: Seq<u8>) -> Option<(u8, Seq<u8>)> {
    if c.len() >= 1 && c[0] <= 7 && (c[0] != 0 ==> c.len() > 1) && c.len() <= MAX_DER_LENGTH {
        Some((c[0], c.skip(1)))
    } else {
        None
    }
}

/// The octets of a BIT STRING have a set bit among their unused ones.
pub open spec fn nonzero_padding(unused: u8, octets: Seq<u8>) -> bool {
    octets.len() > 0 && unused <= 7 && octets.last() as int % crate::asn1::pow2(unused) != 0
}

/// `2` to the power of a small number.
pub open spec fn pow2(k: u8) -> int {
    if k == 0 { 1 } else if k == 1 { 2 } else if k == 2 { 4 } else if k == 3 { 8 }
    else if k == 4 { 16 } else if k == 5 { 32 } else if k == 6 { 64 } else { 128 }
}

/// Whether the octets of a BIT STRING have a set bit among their unused ones.
pub fn has_nonzero_padding(unused: u8, octets: &[u8]) -> (r: bool)
    requires
        unused <= 7,
    ensures
        r == nonzero_padding(unused, octets@),
{
    if octets.len() == 0 {
        return false;
    }
    let modulus: u8 = if unused == 0 { 1 } else if unused == 1 { 2 } else if unused == 2 { 4 }
        else if unused == 3 { 8 } else if unused == 4 { 16 } else if unused == 5 { 32 }
        else if unused == 6 { 64 } else { 128 };
    octets[octets.len() - 1] % modulus != 0
}

/// Whether the digital-signature bit and the non-repudiation bit are set in a
/// DER-encoded KeyUsage of at most sixteen bits.
pub open spec fn key_usage_of(der: Seq<u8>) -> Option<(bool, bool)> {
    match canonical_contents(der) {
        Some(c) => match bit_string(c) {
            Some((unused, octets)) => if der[0] == 0x03 && octets.len() * 8 - unused <= 16 {
                Some((
                    octets.len() > 0 && octets[0] >= 0x80,
                    octets.len() * 8 - unused >= 2 && octets[0] as int % 128 >= 64,
                ))
            } else {
                None
            },
            None => None,
        },
        None => None,
    }
}

/// AlgorithmIdentifier: the body of the algorithm's object identifier, and the
/// parameters as DER.
#[derive(Debug, Clone)]
pub struct AlgorithmId {
    pub oid: Vec<u8>,
    pub parameters: Option<Vec<u8>>,
}

/// What an [`AlgorithmId`] holds.
#[verifier::ext_equal]
pub struct AlgorithmIdView {
    pub oid: Seq<u8>,
    pub parameters: Option<Seq<u8>>,
}

impl View for AlgorithmId {
    type V = AlgorithmIdView;

    open spec fn view(&self) -> AlgorithmIdView {
        AlgorithmIdView { oid: self.oid@, parameters: opt_view(self.parameters) }
    }
}

/// Extension: the body of its object identifier, whether it is critical, and its value.
#[derive(Debug, Clone)]
pub struct Extension {
    pub extn_id: Vec<u8>,
    pub critical: bool,
    pub extn_value: Vec<u8>,
}

/// What an [`Extension`] holds.
#[verifier::ext_equal]
pub struct ExtensionView {
    pub extn_id: Seq<u8>,
    pub critical: bool,
    pub extn_value: Seq<u8>,
}

impl View for Extension {
    type V = ExtensionView;

    open spec fn view(&self) -> ExtensionView {
        ExtensionView {
            extn_id: self.extn_id@,
            critical: self.critical,
            extn_value: self.extn_value@,
        }
    }
}

/// The views of a sequence of extensions.
pub open spec fn extension_views(s: Seq<Extension>) -> Seq<ExtensionView> {
    s.map_values(|e: Extension| e@)
}

/// A GeneralName: a directoryName as DER, a dNSName as its characters, or any
/// other name as DER.
#[derive(Debug, Clone)]
pub enum GeneralName {
    Directory(Vec<u8>),
    Dns(Vec<u8>),
    Other(Vec<u8>),
}

/// What a [`GeneralName`] holds.
#[verifier::ext_equal]
pub enum GeneralNameView {
    Directory(Seq<u8>),
    Dns(Seq<u8>),
    Other(Seq<u8>),
}

impl View for GeneralName {
    type V = GeneralNameView;

    open spec fn view(&self) -> GeneralNameView {
        match self {
            GeneralName::Directory(d) => GeneralNameView::Directory(d@),
            GeneralName::Dns(d) => GeneralNameView::Dns(d@),
            GeneralName::Other(d) => GeneralNameView::Other(d@),
        }
    }
}

/// Calls `der::asn1::AnyRef::from_der`. Claimed: the contents come back exactly
/// when the input is one element with a known tag and the shortest length.
#[verifier::external_body]
pub(crate) fn any_contents(element: &[u8]) -> (r: Option<&[u8]>)
    ensures
        agrees_opt(r, canonical_contents(element@)),
{
    AnyRef::from_der(element).ok().map(|any| any.value())
}

/// Decodes the contents of an INTEGER as `u64` with `der::asn1::AnyRef::decode_as`.
/// Claimed: the number comes back exactly when it is canonical, nonnegative and
/// fits.
#[verifier::external_body]
pub(crate) fn decode_u64(contents: &[u8]) -> (r: Option<u64>)
    ensures
        r matches Some(v) ==> uint_within(contents@, u64::MAX as nat) == Some(v as nat),
        r is None ==> uint_within(contents@, u64::MAX as nat) is None,
{
    AnyRef::new(Tag::Integer, contents).ok()?.decode_as::<u64>().ok()
}

/// Decodes the contents of an INTEGER as `u16` with `der::asn1::AnyRef::decode_as`.
/// Claimed: the number comes back exactly when it is canonical, nonnegative and
/// fits.
#[verifier::external_body]
pub(crate) fn decode_u16(contents: &[u8]) -> (r: Option<u16>)
    ensures
        r matches Some(v) ==> uint_within(contents@, u16::MAX as nat) == Some(v as nat),
        r is None ==> uint_within(contents@, u16::MAX as nat) is None,
{
    AnyRef::new(Tag::Integer, contents).ok()?.decode_as::<u16>().ok()
}

/// Decodes the contents of an INTEGER as `der::asn1::UintRef`. Claimed: it
/// succeeds exactly when the number is canonical and nonnegative.
#[verifier::external_body]
pub(crate) fn decodes_as_uint(contents: &[u8]) -> (r: bool)
    ensures
        r == (uint_canonical(contents@) && contents@.len() <= MAX_DER_LENGTH),
{
    AnyRef::new(Tag::Integer, contents).is_ok_and(|any| any.decode_as::<UintRef<'_>>().is_ok())
}

/// Decodes the contents of an INTEGER as `der::asn1::IntRef`. Claimed: it
/// succeeds exactly when the number is canonical.
#[verifier::external_body]
pub(crate) fn decodes_as_int(contents: &[u8]) -> (r: bool)
    ensures
        r == (int_canonical(contents@) && contents@.len() <= MAX_DER_LENGTH),
{
    AnyRef::new(Tag::Integer, contents).is_ok_and(|any| any.decode_as::<IntRef<'_>>().is_ok())
}

/// Decodes the contents of a BOOLEAN with `der::asn1::AnyRef::decode_as`.
/// Claimed: it succeeds exactly on the single octets 0x00 and 0xFF.
#[verifier::external_body]
pub(crate) fn decode_bool(contents: &[u8]) -> (r: Option<bool>)
    ensures
        r == (if contents@ == seq![0x00u8] {
            Some(false)
        } else if contents@ == seq![0xFFu8] {
            Some(true)
        } else {
            None
        }),
{
    AnyRef::new(Tag::Boolean, contents).ok()?.decode_as::<bool>().ok()
}

/// Decodes the contents of a BIT STRING as `der::asn1::BitStringRef`. Claimed:
/// it succeeds exactly when the first octet counts at most seven unused bits of
/// octets that are there; the octets after it come back.
#[verifier::external_body]
pub(crate) fn decode_bit_string(contents: &[u8]) -> (r: Option<(u8, &[u8])>)
    ensures
        agrees_opt(r, bit_string(contents@)),
{
    let any = AnyRef::new(Tag::BitString, contents).ok()?;
    let bits = any.decode_as::<BitStringRef<'_>>().ok()?;
    Some((bits.unused_bits(), bits.raw_bytes()))
}

/// Decodes the contents of a GeneralizedTime as `der::asn1::GeneralizedTime`.
/// Claimed: the date comes back exactly for the text `YYYYMMDDhhmmssZ` of an
/// existing date from 1970 on.
#[verifier::external_body]
pub(crate) fn decode_generalized_time(contents: &[u8]) -> (r: Option<CivilTime>)
    ensures
        r == date_from_1970(contents@),
{
    let any = AnyRef::new(Tag::GeneralizedTime, contents).ok()?;
    let t = any.decode_as::<GeneralizedTime>().ok()?.to_date_time();
    Some(CivilTime {
        year: t.year(),
        month: t.month(),
        day: t.day(),
        hour: t.hour(),
        minute: t.minutes(),
        second: t.seconds(),
    })
}

/// The date that the text `YYYYMMDDhhmmssZ` names, where it exists and is not
/// before 1970.
pub open spec fn date_from_1970(contents: Seq<u8>) -> Option<CivilTime> {
    match generalized_time(contents) {
        Some(c) => if c.year >= 1970 { Some(c) } else { None },
        None => None,
    }
}

/// The body of an object identifier of 3 to 39 octets: the first octet holds two
/// arcs, the first of at most 2, and whole arcs follow.
#[verifier::opaque]
pub open spec fn oid_valid(body: Seq<u8>) -> bool {
    3 <= body.len() <= 39 && body[0] < 120 && whole_arcs(body.skip(1), 0)
}

/// `s` ends with an arc, after `k` octets of it came before. An octet of 0x80 or
/// more is not the last of its arc, and the fifth octet of an arc is less than 16.
pub open spec fn whole_arcs(s: Seq<u8>, k: nat) -> bool
    decreases s.len(),
{
    if s.len() == 0 {
        k == 0
    } else if k >= 4 && s[0] >= 16 {
        false
    } else if s[0] >= 0x80 {
        whole_arcs(s.skip(1), k + 1)
    } else {
        whole_arcs(s.skip(1), 0)
    }
}

/// Calls `const_oid::ObjectIdentifier::from_bytes`. Claimed: it accepts exactly a
/// body of 3 to 39 octets whose arcs are whole and not too large.
#[verifier::external_body]
pub(crate) fn is_oid(body: &[u8]) -> (r: bool)
    ensures
        r == oid_valid(body@),
{
    ObjectIdentifier::from_bytes(body).is_ok()
}

/// The arcs of an object identifier as decimal numbers with points between them.
#[verifier::opaque]
pub open spec fn oid_text(body: Seq<u8>) -> Seq<char> {
    decimal_text(body[0] as nat / 40) + "."@ + decimal_text(body[0] as nat % 40) + arcs_text(
        body.skip(1),
        0,
    )
}

/// The arcs of `s`, each after a point. `n` is what came before of the first arc;
/// arcs are numbers of 32 bits.
pub open spec fn arcs_text(s: Seq<u8>, n: nat) -> Seq<char>
    decreases s.len(),
{
    if s.len() == 0 {
        Seq::empty()
    } else {
        let arc = (n * 128 + s[0] as nat % 128) % 0x1_0000_0000;
        if s[0] >= 0x80 {
            arcs_text(s.skip(1), arc)
        } else {
            "."@ + decimal_text(arc) + arcs_text(s.skip(1), 0)
        }
    }
}

/// Displays a `const_oid::ObjectIdentifier`. Claimed: the text is its arcs as
/// decimal numbers with points between them.
#[verifier::external_body]
pub(crate) fn oid_to_text(body: &[u8]) -> (r: String)
    requires
        oid_valid(body@),
    ensures
        r@ == oid_text(body@),
{
    ObjectIdentifier::from_bytes(body).expect("accepted body").to_string()
}

/// The AlgorithmIdentifier that `der` encodes: an object identifier and at most one
/// element more.
#[verifier::opaque]
pub open spec fn algorithm_id_of(der: Seq<u8>) -> Option<AlgorithmIdView> {
    match sequence_contents(der) {
        None => None,
        Some(body) => match first_canonical(body) {
            None => None,
            Some((tag, oid, rest)) => if tag != 0x06 || !oid_valid(oid) {
                None
            } else if rest.len() == 0 {
                Some(AlgorithmIdView { oid, parameters: None })
            } else if canonical_contents(rest) is Some {
                Some(AlgorithmIdView { oid, parameters: Some(rest) })
            } else {
                None
            },
        },
    }
}

/// Calls `spki::AlgorithmIdentifierOwned::from_der`. Claimed: it reads exactly a
/// SEQUENCE of an object identifier and at most one element more, the parameters.
#[verifier::external_body]
pub(crate) fn decode_algorithm_id(der: &[u8]) -> (r: Option<AlgorithmId>)
    ensures
        agrees_opt(r, algorithm_id_of(der@)),
{
    let alg = spki::AlgorithmIdentifierOwned::from_der(der).ok()?;
    let parameters = match &alg.parameters {
        Some(p) => Some(p.to_der().ok()?),
        None => None,
    };
    Some(AlgorithmId { oid: alg.oid.as_bytes().to_vec(), parameters })
}

/// The Extension that `der` encodes: an object identifier, a BOOLEAN that may be
/// left out where it is false, and an OCTET STRING.
#[verifier::opaque]
pub open spec fn extension_of(der: Seq<u8>) -> Option<ExtensionView> {
    match sequence_contents(der) {
        None => None,
        Some(body) => match first_canonical(body) {
            None => None,
            Some((tag, oid, rest)) => if tag != 0x06 || !oid_valid(oid) {
                None
            } else {
                match default_false(rest) {
                    None => None,
                    Some((critical, value)) => match canonical_contents(value) {
                        Some(extn_value) if value[0] == 0x04 => Some(
                            ExtensionView { extn_id: oid, critical, extn_value },
                        ),
                        _ => None,
                    },
                }
            },
        },
    }
}

/// Calls `x509_cert::ext::Extension::from_der`. Claimed: it reads exactly a
/// SEQUENCE of an object identifier, a BOOLEAN that may be left out where it is
/// false, and an OCTET STRING.
#[verifier::external_body]
pub(crate) fn decode_extension(der: &[u8]) -> (r: Option<Extension>)
    ensures
        agrees_opt(r, extension_of(der@)),
{
    let e = x509_cert::ext::Extension::from_der(der).ok()?;
    Some(Extension {
        extn_id: e.extn_id.as_bytes().to_vec(),
        critical: e.critical,
        extn_value: e.extn_value.as_bytes().to_vec(),
    })
}

/// The Extensions that `der` encodes, in order.
#[verifier::opaque]
pub open spec fn extensions_of(der: Seq<u8>) -> Option<Seq<ExtensionView>> {
    match sequence_contents(der) {
        None => None,
        Some(body) => extension_elements(body, Seq::empty()),
    }
}

/// `found` and the Extension elements of `s` after it; none where `s` holds anything
/// else.
pub open spec fn extension_elements(s: Seq<u8>, found: Seq<ExtensionView>) -> Option<
    Seq<ExtensionView>,
>
    decreases s.len(),
{
    if s.len() == 0 {
        Some(found)
    } else {
        proof {
            lemma_tlv_shrinks(s);
        }
        match first_canonical(s) {
            None => None,
            Some((tag, contents, rest)) => match extension_of(tlv_bytes(tag, contents)) {
                None => None,
                Some(e) => extension_elements(rest, found.push(e)),
            },
        }
    }
}

/// Calls `x509_cert::ext::Extensions::from_der`. Claimed: it reads exactly a
/// SEQUENCE of Extension elements, in order.
#[verifier::external_body]
pub(crate) fn decode_extensions(der: &[u8]) -> (r: Option<Vec<Extension>>)
    ensures
        r matches Some(v) ==> extensions_of(der@) == Some(extension_views(v@)),
        r is None ==> extensions_of(der@) is None,
{
    let list = x509_cert::ext::Extensions::from_der(der).ok()?;
    let convert = |e: &x509_cert::ext::Extension| Extension {
        extn_id: e.extn_id.as_bytes().to_vec(),
        critical: e.critical,
        extn_value: e.extn_value.as_bytes().to_vec(),
    };
    Some(list.iter().map(convert).collect())
}

/// Calls `x509_cert::ext::pkix::KeyUsage::from_der`. Claimed: it accepts a BIT
/// STRING of at most sixteen bits, whose first two bits are the two flags.
#[verifier::external_body]
pub(crate) fn decode_key_usage(der: &[u8]) -> (r: Option<(bool, bool)>)
    ensures
        r == key_usage_of(der@),
{
    let usage = pkix::KeyUsage::from_der(der).ok()?;
    Some((usage.digital_signature(), usage.non_repudiation()))
}

/// The BasicConstraints that `der` encodes: whether the subject is a certification
/// authority, and its path length, of at most one octet.
#[verifier::opaque]
pub open spec fn basic_constraints_of(der: Seq<u8>) -> Option<(bool, Option<u8>)> {
    match sequence_contents(der) {
        None => None,
        Some(body) => match default_false(body) {
            None => None,
            Some((ca, rest)) => if rest.len() == 0 {
                Some((ca, None))
            } else {
                match canonical_contents(rest) {
                    Some(c) if rest[0] == 0x02 && uint_within(c, u8::MAX as nat) is Some => Some(
                        (ca, Some(uint_within(c, u8::MAX as nat)->0 as u8)),
                    ),
                    _ => None,
                }
            },
        },
    }
}

/// Calls `x509_cert::ext::pkix::BasicConstraints::from_der`. Claimed: it reads
/// exactly a SEQUENCE of a BOOLEAN that may be left out where it is false, and
/// an INTEGER from 0 to 255 that may be left out.
#[verifier::external_body]
pub(crate) fn decode_basic_constraints(der: &[u8]) -> (r: Option<(bool, Option<u8>)>)
    ensures
        r == basic_constraints_of(der@),
{
    let constraints = pkix::BasicConstraints::from_der(der).ok()?;
    Some((constraints.ca, constraints.path_len_constraint))
}

/// The bodies of the purposes of the ExtendedKeyUsage that `der` encodes, in order.
#[verifier::opaque]
pub open spec fn extended_key_usage_of(der: Seq<u8>) -> Option<Seq<Seq<u8>>> {
    match sequence_contents(der) {
        None => None,
        Some(body) => oid_elements(body, Seq::empty()),
    }
}

/// `found` and the bodies of the object identifiers of `s` after it; none where `s`
/// holds anything else.
pub open spec fn oid_elements(s: Seq<u8>, found: Seq<Seq<u8>>) -> Option<Seq<Seq<u8>>>
    decreases s.len(),
{
    if s.len() == 0 {
        Some(found)
    } else {
        proof {
            lemma_tlv_shrinks(s);
        }
        match first_canonical(s) {
            None => None,
            Some((tag, oid, rest)) => if tag == 0x06 && oid_valid(oid) {
                oid_elements(rest, found.push(oid))
            } else {
                None
            },
        }
    }
}

/// Calls `x509_cert::ext::pkix::ExtendedKeyUsage::from_der`. Claimed: it reads
/// exactly a SEQUENCE of object identifiers, in order.
#[verifier::external_body]
pub(crate) fn decode_extended_key_usage(der: &[u8]) -> (r: Option<Vec<Vec<u8>>>)
    ensures
        r matches Some(v) ==> extended_key_usage_of(der@) == Some(views(v@)),
        r is None ==> extended_key_usage_of(der@) is None,
{
    let usage = pkix::ExtendedKeyUsage::from_der(der).ok()?;
    Some(usage.0.iter().map(|oid| oid.as_bytes().to_vec()).collect())
}

/// The DER of the names that `x509_cert::ext::pkix::name::GeneralNames::from_der`
/// reads from `der`.
pub uninterp spec fn general_names_of(der: Seq<u8>) -> Option<Seq<Seq<u8>>>;

/// Calls `x509_cert::ext::pkix::name::GeneralNames::from_der`, which also reads a
/// subjectAltName. Claimed: the list depends on the bytes alone.
#[verifier::external_body]
pub(crate) fn decode_general_names(der: &[u8]) -> (r: Option<Vec<Vec<u8>>>)
    ensures
        r matches Some(v) ==> general_names_of(der@) == Some(views(v@)),
        r is None ==> general_names_of(der@) is None,
{
    let names = pkix::name::GeneralNames::from_der(der).ok()?;
    names.iter().map(|name| name.to_der().ok()).collect()
}

/// What `x509_cert::ext::pkix::name::GeneralName::from_der` reads from `der`.
pub uninterp spec fn general_name_of(der: Seq<u8>) -> Option<GeneralNameView>;

/// Calls `x509_cert::ext::pkix::name::GeneralName::from_der`. Claimed: the name
/// depends on the bytes alone.
#[verifier::external_body]
pub(crate) fn decode_general_name(der: &[u8]) -> (r: Option<GeneralName>)
    ensures
        agrees_opt(r, general_name_of(der@)),
{
    match pkix::name::GeneralName::from_der(der).ok()? {
        pkix::name::GeneralName::DirectoryName(n) => Some(GeneralName::Directory(n.to_der().ok()?)),
        pkix::name::GeneralName::DnsName(n) => Some(GeneralName::Dns(n.as_bytes().to_vec())),
        other => Some(GeneralName::Other(other.to_der().ok()?)),
    }
}

/// Decodes the contents of an INTEGER as `x509_cert::serial_number::SerialNumber`.
/// Claimed: it succeeds exactly for a canonical number of at most 21 octets.
#[verifier::external_body]
pub(crate) fn decodes_as_serial(contents: &[u8]) -> (r: bool)
    ensures
        r == (int_canonical(contents@) && contents@.len() <= 21),
{
    AnyRef::new(Tag::Integer, contents).is_ok_and(|any| {
        any.decode_as::<x509_cert::serial_number::SerialNumber>().is_ok()
    })
}

} // verus!
