//! The parts of a CMS SignedData that a timestamp token uses.

use cms::cert::CertificateChoices;
use cms::content_info::ContentInfo;
use cms::signed_data::{SignedData, SignerIdentifier, SignerInfo};
use der::{Decode, Encode};
use vstd::prelude::*;
use x509_cert::attr::Attributes;

use crate::bytes::bytes_equal;
use crate::error::{Fault, TspError};
#[allow(unused_imports)]
use crate::agrees_opt;
#[allow(unused_imports)]
use crate::bytes::views;
#[allow(unused_imports)]
use crate::der_utils::tlv;
#[allow(unused_imports)]
use crate::opt_view;

verus! {

/// ContentInfo: the body of the content type, and the content as DER.
pub struct ContentParts {
    pub content_type: Vec<u8>,
    pub content: Vec<u8>,
}

/// What [`ContentParts`] holds.
#[verifier::ext_equal]
pub struct ContentPartsView {
    pub content_type: Seq<u8>,
    pub content: Seq<u8>,
}

impl View for ContentParts {
    type V = ContentPartsView;

    open spec fn view(&self) -> ContentPartsView {
        ContentPartsView { content_type: self.content_type@, content: self.content@ }
    }
}

/// SignedData: the encapsulated content as DER, the certificates as DER (none for
/// an alternative that is no certificate), and the signers as DER.
pub struct SignedParts {
    pub econtent_type: Vec<u8>,
    pub econtent: Option<Vec<u8>>,
    pub certificates: Vec<Option<Vec<u8>>>,
    pub signer_infos: Vec<Vec<u8>>,
}

/// What [`SignedParts`] holds.
#[verifier::ext_equal]
pub struct SignedPartsView {
    pub econtent_type: Seq<u8>,
    pub econtent: Option<Seq<u8>>,
    pub certificates: Seq<Option<Seq<u8>>>,
    pub signer_infos: Seq<Seq<u8>>,
}

impl View for SignedParts {
    type V = SignedPartsView;

    open spec fn view(&self) -> SignedPartsView {
        SignedPartsView {
            econtent_type: self.econtent_type@,
            econtent: opt_view(self.econtent),
            certificates: self.certificates@.map_values(|c: Option<Vec<u8>>| opt_view(c)),
            signer_infos: views(self.signer_infos@),
        }
    }
}

/// How a SignerInfo names its certificate.
pub enum SignerId {
    /// By the issuer's Name as DER and the contents of the serial number.
    IssuerAndSerial(Vec<u8>, Vec<u8>),
    /// By the subject key identifier.
    KeyId(Vec<u8>),
}

/// What a [`SignerId`] holds.
#[verifier::ext_equal]
pub enum SignerIdView {
    IssuerAndSerial(Seq<u8>, Seq<u8>),
    KeyId(Seq<u8>),
}

impl View for SignerId {
    type V = SignerIdView;

    open spec fn view(&self) -> SignerIdView {
        match self {
            SignerId::IssuerAndSerial(i, s) => SignerIdView::IssuerAndSerial(i@, s@),
            SignerId::KeyId(k) => SignerIdView::KeyId(k@),
        }
    }
}

/// SignerInfo. Attributes and the signature algorithm are kept as DER.
pub struct SignerParts {
    pub sid: SignerId,
    pub digest_oid: Vec<u8>,
    pub signed_attrs: Option<Vec<u8>>,
    pub signature_algorithm: Vec<u8>,
    pub signature: Vec<u8>,
    pub unsigned_attrs: Option<Vec<u8>>,
}

/// What [`SignerParts`] holds.
#[verifier::ext_equal]
pub struct SignerPartsView {
    pub sid: SignerIdView,
    pub digest_oid: Seq<u8>,
    pub signed_attrs: Option<Seq<u8>>,
    pub signature_algorithm: Seq<u8>,
    pub signature: Seq<u8>,
    pub unsigned_attrs: Option<Seq<u8>>,
}

impl View for SignerParts {
    type V = SignerPartsView;

    open spec fn view(&self) -> SignerPartsView {
        SignerPartsView {
            sid: self.sid@,
            digest_oid: self.digest_oid@,
            signed_attrs: opt_view(self.signed_attrs),
            signature_algorithm: self.signature_algorithm@,
            signature: self.signature@,
            unsigned_attrs: opt_view(self.unsigned_attrs),
        }
    }
}

/// Attribute: the body of its type, and its values as DER.
pub struct Attribute {
    pub oid: Vec<u8>,
    pub values: Vec<Vec<u8>>,
}

/// What an [`Attribute`] holds.
#[verifier::ext_equal]
pub struct AttributeView {
    pub oid: Seq<u8>,
    pub values: Seq<Seq<u8>>,
}

impl View for Attribute {
    type V = AttributeView;

    open spec fn view(&self) -> AttributeView {
        AttributeView { oid: self.oid@, values: views(self.values@) }
    }
}

/// The views of a sequence of attributes.
pub open spec fn attribute_views(s: Seq<Attribute>) -> Seq<AttributeView> {
    s.map_values(|a: Attribute| a@)
}

/// What `cms::content_info::ContentInfo::from_der` reads from `der`.
pub uninterp spec fn content_info_of(der: Seq<u8>) -> Option<ContentPartsView>;

/// A ContentInfo as it is laid out: a SEQUENCE of the content type and, under tag
/// [0], the content.
#[verifier::opaque]
pub open spec fn content_info_layout(der: Seq<u8>, parts: ContentPartsView) -> bool {
    &&& tlv(der) matches Ok((tag, body, after))
    &&& tag == 0x30 && after.len() == 0
    &&& tlv(body) matches Ok((type_tag, content_type, rest))
    &&& type_tag == 0x06 && content_type == parts.content_type
    &&& tlv(rest) matches Ok((content_tag, content, end))
    &&& content_tag == 0xA0 && end.len() == 0 && content == parts.content
}

/// The start of a SignedData as it is laid out: a SEQUENCE of a version, digest
/// algorithms and a SEQUENCE of the content type and, under tag [0], the content.
#[verifier::opaque]
pub open spec fn signed_data_layout(der: Seq<u8>, parts: SignedPartsView) -> bool {
    &&& tlv(der) matches Ok((tag, body, after))
    &&& tag == 0x30
    &&& tlv(body) matches Ok((version_tag, version, s1))
    &&& tlv(s1) matches Ok((digests_tag, digests, s2))
    &&& tlv(s2) matches Ok((info_tag, info, s3))
    &&& tlv(info) matches Ok((type_tag, econtent_type, rest))
    &&& econtent_type == parts.econtent_type
    &&& parts.econtent matches Some(econtent) ==> (tlv(rest) matches Ok((outer_tag, outer, end))
        && outer_tag == 0xA0 && (tlv(outer) matches Ok((inner_tag, inner, last)) && (tlv(econtent)
        matches Ok((element_tag, element, after_element)) && element_tag == inner_tag && element
        == inner)))
}

/// Calls `cms::content_info::ContentInfo::from_der`. Claimed: the content type
/// and the content depend on the bytes alone, and stand in them where the type
/// lays them out.
#[verifier::external_body]
pub(crate) fn decode_content_info(der: &[u8]) -> (r: Option<ContentParts>)
    ensures
        agrees_opt(r, content_info_of(der@)),
        r matches Some(parts) ==> content_info_layout(der@, parts@),
{
    let info = ContentInfo::from_der(der).ok()?;
    Some(ContentParts {
        content_type: info.content_type.as_bytes().to_vec(),
        content: info.content.to_der().ok()?,
    })
}

/// What `cms::signed_data::SignedData::from_der` reads from `der`.
pub uninterp spec fn signed_data_of(der: Seq<u8>) -> Option<SignedPartsView>;

/// Calls `cms::signed_data::SignedData::from_der`. Claimed: the parts depend on
/// the bytes alone, and the content and its type stand in them where the type lays
/// them out.
#[verifier::external_body]
pub(crate) fn decode_signed_data(der: &[u8]) -> (r: Option<SignedParts>)
    ensures
        agrees_opt(r, signed_data_of(der@)),
        r matches Some(parts) ==> signed_data_layout(der@, parts@),
{
    let data = SignedData::from_der(der).ok()?;
    let convert = |choice: &CertificateChoices| match choice {
        CertificateChoices::Certificate(cert) => Some(Some(cert.to_der().ok()?)),
        CertificateChoices::Other(_) => Some(None),
    };
    Some(SignedParts {
        econtent_type: data.encap_content_info.econtent_type.as_bytes().to_vec(),
        econtent: data.encap_content_info.econtent.map(|c| c.to_der()).transpose().ok()?,
        certificates: data.certificates.map(|set| set.0.into_vec()).unwrap_or_default().iter().map(convert).collect::<Option<_>>()?,
        signer_infos: data.signer_infos.0.iter().map(|s| s.to_der().ok()).collect::<Option<_>>()?,
    })
}

/// What `cms::signed_data::SignerInfo::from_der` reads from `der`.
pub uninterp spec fn signer_info_of(der: Seq<u8>) -> Option<SignerPartsView>;

/// Calls `cms::signed_data::SignerInfo::from_der`. Claimed: the parts depend on
/// the bytes alone.
#[verifier::external_body]
pub(crate) fn decode_signer_info(der: &[u8]) -> (r: Option<SignerParts>)
    ensures
        agrees_opt(r, signer_info_of(der@)),
{
    let info = SignerInfo::from_der(der).ok()?;
    Some(SignerParts {
        sid: match info.sid {
            SignerIdentifier::IssuerAndSerialNumber(id) => SignerId::IssuerAndSerial(id.issuer.to_der().ok()?, id.serial_number.as_bytes().to_vec()),
            SignerIdentifier::SubjectKeyIdentifier(id) => SignerId::KeyId(id.0.as_bytes().to_vec()),
        },
        digest_oid: info.digest_alg.oid.as_bytes().to_vec(),
        signed_attrs: info.signed_attrs.map(|a| a.to_der()).transpose().ok()?,
        signature_algorithm: info.signature_algorithm.to_der().ok()?,
        signature: info.signature.as_bytes().to_vec(),
        unsigned_attrs: info.unsigned_attrs.map(|a| a.to_der()).transpose().ok()?,
    })
}

/// What `x509_cert::attr::Attributes::from_der` reads from `der`.
pub uninterp spec fn attributes_of(der: Seq<u8>) -> Option<Seq<AttributeView>>;

/// Calls `x509_cert::attr::Attributes::from_der`. Claimed: the attributes depend
/// on the bytes alone.
#[verifier::external_body]
pub(crate) fn decode_attributes(der: &[u8]) -> (r: Option<Vec<Attribute>>)
    ensures
        r matches Some(v) ==> attributes_of(der@) == Some(attribute_views(v@)),
        r is None ==> attributes_of(der@) is None,
{
    let convert = |a: &x509_cert::attr::Attribute| {
        let values = a.values.iter().map(|v| v.to_der().ok()).collect::<Option<Vec<_>>>()?;
        Some(Attribute { oid: a.oid.as_bytes().to_vec(), values })
    };
    Attributes::from_der(der).ok()?.iter().map(convert).collect()
}

/// The attributes of type `oid`, in order.
pub open spec fn with_type(attrs: Seq<AttributeView>, oid: Seq<u8>) -> Seq<AttributeView>
    decreases attrs.len(),
{
    if attrs.len() == 0 {
        Seq::empty()
    } else if attrs.last().oid == oid {
        with_type(attrs.drop_last(), oid).push(attrs.last())
    } else {
        with_type(attrs.drop_last(), oid)
    }
}

/// The single value of the single attribute of type `oid`; none where there is no
/// such attribute.
pub open spec fn single_value(attrs: Seq<AttributeView>, oid: Seq<u8>) -> Result<
    Option<Seq<u8>>,
    TspError,
> {
    let matching = with_type(attrs, oid);
    if matching.len() == 0 {
        Ok(None)
    } else if matching.len() > 1 {
        Err(TspError::VerificationFailed(Fault::Text("duplicate signed attribute")))
    } else if matching[0].values.len() != 1 {
        Err(
            TspError::VerificationFailed(
                Fault::Count(
                    "signed attribute must have exactly one value, has ",
                    matching[0].values.len() as usize,
                ),
            ),
        )
    } else {
        Ok(Some(matching[0].values[0]))
    }
}

/// Finds the single value of the single attribute of type `oid`.
pub fn find_attribute<'a>(attrs: &'a Vec<Attribute>, oid: &[u8]) -> (r: Result<
    Option<&'a Vec<u8>>,
    TspError,
>)
    ensures
        match (r, single_value(attribute_views(attrs@), oid@)) {
            (Ok(v), Ok(w)) => opt_view(v) == w,
            (Err(e), Err(f)) => e == f,
            _ => false,
        },
{
    let ghost all = attribute_views(attrs@);
    let mut count: usize = 0;
    let mut first: usize = 0;
    let mut i: usize = 0;
    assert(all.take(0) =~= Seq::<AttributeView>::empty());
    while i < attrs.len()
        invariant
            i <= attrs.len(),
            count <= i,
            all == attribute_views(attrs@),
            count == with_type(all.take(i as int), oid@).len(),
            count > 0 ==> first < attrs.len() && with_type(all.take(i as int), oid@)[0]
                == attrs@[first as int]@,
        decreases attrs.len() - i,
    {
        assert(all.take(i + 1).drop_last() =~= all.take(i as int));
        assert(all.take(i + 1).last() == attrs@[i as int]@);
        if bytes_equal(attrs[i].oid.as_slice(), oid) {
            if count == 0 {
                first = i;
            }
            count += 1;
        }
        i += 1;
    }
    assert(all.take(attrs.len() as int) =~= all);
    if count == 0 {
        return Ok(None);
    }
    if count > 1 {
        return Err(TspError::VerificationFailed(Fault::Text("duplicate signed attribute")));
    }
    let values = &attrs[first].values;
    if values.len() != 1 {
        return Err(
            TspError::VerificationFailed(
                Fault::Count("signed attribute must have exactly one value, has ", values.len()),
            ),
        );
    }
    Ok(Some(&values[0]))
}

} // verus!
