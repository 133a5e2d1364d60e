//! Certificates as the validation rules read them.

pub mod laws;

use der::{Decode, Encode};
use vstd::prelude::*;

use crate::asn1::{decode_extensions, Extension};
use crate::bytes::{bytes_equal, to_vec};
#[allow(unused_imports)]
use crate::agrees_opt;
#[allow(unused_imports)]
use crate::asn1::{extension_views, extensions_of, ExtensionView};
#[allow(unused_imports)]
use crate::der_utils::tlv_bytes;
#[allow(unused_imports)]
use crate::opt_view;

verus! {

/// id-ce-subjectKeyIdentifier.
pub const ID_CE_SUBJECT_KEY_IDENTIFIER: [u8; 3] = [0x55, 0x1D, 0x0E];

/// id-ce-keyUsage.
pub const ID_CE_KEY_USAGE: [u8; 3] = [0x55, 0x1D, 0x0F];

/// id-ce-subjectAltName.
pub const ID_CE_SUBJECT_ALT_NAME: [u8; 3] = [0x55, 0x1D, 0x11];

/// id-ce-basicConstraints.
pub const ID_CE_BASIC_CONSTRAINTS: [u8; 3] = [0x55, 0x1D, 0x13];

/// id-ce-extKeyUsage.
pub const ID_CE_EXT_KEY_USAGE: [u8; 3] = [0x55, 0x1D, 0x25];

/// A certificate. Names, keys and algorithms are kept as DER, so that equality of
/// the values is equality of the bytes.
#[derive(Debug)]
pub struct Certificate {
    /// The whole certificate.
    pub der: Vec<u8>,
    /// TBSCertificate.
    pub tbs: Vec<u8>,
    /// AlgorithmIdentifier of the signature.
    pub signature_algorithm: Vec<u8>,
    /// AlgorithmIdentifier of the signature, as the signed part names it.
    pub tbs_signature_algorithm: Vec<u8>,
    /// The signature.
    pub signature: Vec<u8>,
    /// The contents of the serial number.
    pub serial_number: Vec<u8>,
    /// The serial number.
    pub serial_der: Vec<u8>,
    /// The issuer's Name.
    pub issuer: Vec<u8>,
    /// The subject's Name.
    pub subject: Vec<u8>,
    /// SubjectPublicKeyInfo.
    pub spki: Vec<u8>,
    /// The octets of the public key.
    pub public_key: Vec<u8>,
    /// Start of the validity, in seconds from the epoch.
    pub not_before: u64,
    /// End of the validity, in seconds from the epoch.
    pub not_after: u64,
    /// The extensions, where there are any.
    pub extensions: Option<Vec<Extension>>,
}

/// What a [`Certificate`] holds.
#[verifier::ext_equal]
pub struct CertificateView {
    pub der: Seq<u8>,
    pub tbs: Seq<u8>,
    pub signature_algorithm: Seq<u8>,
    pub tbs_signature_algorithm: Seq<u8>,
    pub signature: Seq<u8>,
    pub serial_number: Seq<u8>,
    pub serial_der: Seq<u8>,
    pub issuer: Seq<u8>,
    pub subject: Seq<u8>,
    pub spki: Seq<u8>,
    pub public_key: Seq<u8>,
    pub not_before: u64,
    pub not_after: u64,
    pub extensions: Option<Seq<ExtensionView>>,
}

impl View for Certificate {
    type V = CertificateView;

    open spec fn view(&self) -> CertificateView {
        CertificateView {
            der: self.der@,
            tbs: self.tbs@,
            signature_algorithm: self.signature_algorithm@,
            tbs_signature_algorithm: self.tbs_signature_algorithm@,
            signature: self.signature@,
            serial_number: self.serial_number@,
            serial_der: self.serial_der@,
            issuer: self.issuer@,
            subject: self.subject@,
            spki: self.spki@,
            public_key: self.public_key@,
            not_before: self.not_before,
            not_after: self.not_after,
            extensions: match self.extensions {
                Some(e) => Some(extension_views(e@)),
                None => None,
            },
        }
    }
}

/// The views of a sequence of certificates.
pub open spec fn certificate_views(s: Seq<Certificate>) -> Seq<CertificateView> {
    s.map_values(|c: Certificate| c@)
}

/// The three parts of a certificate and the whole, as DER.
pub struct CertificateParts {
    pub der: Vec<u8>,
    pub tbs: Vec<u8>,
    pub signature_algorithm: Vec<u8>,
    pub tbs_signature_algorithm: Vec<u8>,
    pub signature: Vec<u8>,
}

/// What [`CertificateParts`] holds.
#[verifier::ext_equal]
pub struct CertificatePartsView {
    pub der: Seq<u8>,
    pub tbs: Seq<u8>,
    pub signature_algorithm: Seq<u8>,
    pub tbs_signature_algorithm: Seq<u8>,
    pub signature: Seq<u8>,
}

impl View for CertificateParts {
    type V = CertificatePartsView;

    open spec fn view(&self) -> CertificatePartsView {
        CertificatePartsView {
            der: self.der@,
            tbs: self.tbs@,
            signature_algorithm: self.signature_algorithm@,
            tbs_signature_algorithm: self.tbs_signature_algorithm@,
            signature: self.signature@,
        }
    }
}

/// The fields of a TBSCertificate.
pub struct TbsFields {
    pub serial_number: Vec<u8>,
    pub serial_der: Vec<u8>,
    pub issuer: Vec<u8>,
    pub subject: Vec<u8>,
    pub spki: Vec<u8>,
    pub public_key: Vec<u8>,
    pub not_before: u64,
    pub not_after: u64,
    pub extensions: Option<Vec<u8>>,
}

/// What [`TbsFields`] holds.
#[verifier::ext_equal]
pub struct TbsFieldsView {
    pub serial_number: Seq<u8>,
    pub serial_der: Seq<u8>,
    pub issuer: Seq<u8>,
    pub subject: Seq<u8>,
    pub spki: Seq<u8>,
    pub public_key: Seq<u8>,
    pub not_before: u64,
    pub not_after: u64,
    pub extensions: Option<Seq<u8>>,
}

impl View for TbsFields {
    type V = TbsFieldsView;

    open spec fn view(&self) -> TbsFieldsView {
        TbsFieldsView {
            serial_number: self.serial_number@,
            serial_der: self.serial_der@,
            issuer: self.issuer@,
            subject: self.subject@,
            spki: self.spki@,
            public_key: self.public_key@,
            not_before: self.not_before,
            not_after: self.not_after,
            extensions: opt_view(self.extensions),
        }
    }
}

/// What `x509_cert::Certificate::from_der` reads from `der`.
pub uninterp spec fn certificate_parts_of(der: Seq<u8>) -> Option<CertificatePartsView>;

/// Calls `x509_cert::Certificate::from_der` and encodes the parts it reads.
/// Claimed: they depend on the bytes alone.
#[verifier::external_body]
pub(crate) fn decode_certificate(der: &[u8]) -> (r: Option<CertificateParts>)
    ensures
        agrees_opt(r, certificate_parts_of(der@)),
{
    let cert = x509_cert::Certificate::from_der(der).ok()?;
    Some(CertificateParts {
        der: cert.to_der().ok()?,
        tbs: cert.tbs_certificate.to_der().ok()?,
        signature_algorithm: cert.signature_algorithm.to_der().ok()?,
        tbs_signature_algorithm: cert.tbs_certificate.signature.to_der().ok()?,
        signature: cert.signature.raw_bytes().to_vec(),
    })
}

/// What `x509_cert::TbsCertificate::from_der` reads from `der`.
pub uninterp spec fn tbs_fields_of(der: Seq<u8>) -> Option<TbsFieldsView>;

/// Calls `x509_cert::TbsCertificate::from_der` and encodes the fields it reads.
/// Claimed: they depend on the bytes alone, and the serial number is encoded as the
/// INTEGER with its contents.
#[verifier::external_body]
pub(crate) fn decode_tbs(der: &[u8]) -> (r: Option<TbsFields>)
    ensures
        agrees_opt(r, tbs_fields_of(der@)),
        r matches Some(fields) ==> fields@.serial_der == tlv_bytes(0x02, fields@.serial_number),
{
    let tbs = x509_cert::TbsCertificate::from_der(der).ok()?;
    let key = tbs.subject_public_key_info;
    Some(TbsFields {
        serial_number: tbs.serial_number.as_bytes().to_vec(),
        serial_der: tbs.serial_number.to_der().ok()?,
        issuer: tbs.issuer.to_der().ok()?,
        subject: tbs.subject.to_der().ok()?,
        spki: key.to_der().ok()?,
        public_key: key.subject_public_key.raw_bytes().to_vec(),
        not_before: tbs.validity.not_before.to_unix_duration().as_secs(),
        not_after: tbs.validity.not_after.to_unix_duration().as_secs(),
        extensions: tbs.extensions.map(|e| e.to_der()).transpose().ok()?,
    })
}

/// The certificate that `der` encodes.
pub open spec fn certificate_of(der: Seq<u8>) -> Option<CertificateView> {
    match certificate_parts_of(der) {
        None => None,
        Some(parts) => match tbs_fields_of(parts.tbs) {
            None => None,
            Some(tbs) => match tbs.extensions {
                None => Some(certificate_from(parts, tbs, None)),
                Some(list) => match extensions_of(list) {
                    None => None,
                    Some(extensions) => Some(certificate_from(parts, tbs, Some(extensions))),
                },
            },
        },
    }
}

/// A certificate put together from its decoded parts.
pub open spec fn certificate_from(
    parts: CertificatePartsView,
    tbs: TbsFieldsView,
    extensions: Option<Seq<ExtensionView>>,
) -> CertificateView {
    CertificateView {
        der: parts.der,
        tbs: parts.tbs,
        signature_algorithm: parts.signature_algorithm,
        tbs_signature_algorithm: parts.tbs_signature_algorithm,
        signature: parts.signature,
        serial_number: tbs.serial_number,
        serial_der: tbs.serial_der,
        issuer: tbs.issuer,
        subject: tbs.subject,
        spki: tbs.spki,
        public_key: tbs.public_key,
        not_before: tbs.not_before,
        not_after: tbs.not_after,
        extensions,
    }
}

/// The two forms of the serial number of a certificate agree.
pub open spec fn serial_is_integer(cert: CertificateView) -> bool {
    cert.serial_der == tlv_bytes(0x02, cert.serial_number)
}

impl Certificate {
    /// Decodes a certificate.
    pub fn from_der(der: &[u8]) -> (r: Option<Certificate>)
        ensures
            agrees_opt(r, certificate_of(der@)),
            r matches Some(cert) ==> serial_is_integer(cert@),
    {
        let parts = match decode_certificate(der) {
            None => return None,
            Some(p) => p,
        };
        let tbs = match decode_tbs(parts.tbs.as_slice()) {
            None => return None,
            Some(t) => t,
        };
        let extensions: Option<Vec<Extension>> = match &tbs.extensions {
            None => None,
            Some(list) => match decode_extensions(list.as_slice()) {
                None => return None,
                Some(e) => Some(e),
            },
        };
        Some(Certificate {
            der: parts.der,
            tbs: parts.tbs,
            signature_algorithm: parts.signature_algorithm,
            tbs_signature_algorithm: parts.tbs_signature_algorithm,
            signature: parts.signature,
            serial_number: tbs.serial_number,
            serial_der: tbs.serial_der,
            issuer: tbs.issuer,
            subject: tbs.subject,
            spki: tbs.spki,
            public_key: tbs.public_key,
            not_before: tbs.not_before,
            not_after: tbs.not_after,
            extensions,
        })
    }

    /// A copy of the certificate.
    pub fn duplicate(&self) -> (r: Certificate)
        ensures
            r@ == self@,
    {
        let extensions: Option<Vec<Extension>> = match &self.extensions {
            None => None,
            Some(list) => Some(duplicate_extensions(list)),
        };
        Certificate {
            der: to_vec(self.der.as_slice()),
            tbs: to_vec(self.tbs.as_slice()),
            signature_algorithm: to_vec(self.signature_algorithm.as_slice()),
            tbs_signature_algorithm: to_vec(self.tbs_signature_algorithm.as_slice()),
            signature: to_vec(self.signature.as_slice()),
            serial_number: to_vec(self.serial_number.as_slice()),
            serial_der: to_vec(self.serial_der.as_slice()),
            issuer: to_vec(self.issuer.as_slice()),
            subject: to_vec(self.subject.as_slice()),
            spki: to_vec(self.spki.as_slice()),
            public_key: to_vec(self.public_key.as_slice()),
            not_before: self.not_before,
            not_after: self.not_after,
            extensions,
        }
    }

    /// Whether the two certificates are the same bytes.
    pub fn same_as(&self, other: &Certificate) -> (r: bool)
        ensures
            r == (self@.der == other@.der),
    {
        bytes_equal(self.der.as_slice(), other.der.as_slice())
    }
}

fn duplicate_extensions(list: &Vec<Extension>) -> (r: Vec<Extension>)
    ensures
        extension_views(r@) == extension_views(list@),
{
    let mut out: Vec<Extension> = Vec::new();
    let mut i: usize = 0;
    while i < list.len()
        invariant
            i <= list.len(),
            out.len() == i,
            forall|j: int| 0 <= j < i ==> (#[trigger] out@[j])@ == list@[j]@,
        decreases list.len() - i,
    {
        let e = &list[i];
        out.push(Extension {
            extn_id: to_vec(e.extn_id.as_slice()),
            critical: e.critical,
            extn_value: to_vec(e.extn_value.as_slice()),
        });
        assert(out@[i as int]@ == list@[i as int]@);
        i += 1;
    }
    assert(extension_views(out@) =~= extension_views(list@));
    out
}

/// Copies of a list of certificates.
pub fn duplicate_all(list: &[Certificate]) -> (r: Vec<Certificate>)
    ensures
        certificate_views(r@) == certificate_views(list@),
{
    let mut out: Vec<Certificate> = Vec::new();
    let mut i: usize = 0;
    while i < list.len()
        invariant
            i <= list.len(),
            out.len() == i,
            forall|j: int| 0 <= j < i ==> (#[trigger] out@[j])@ == list@[j]@,
        decreases list.len() - i,
    {
        out.push(list[i].duplicate());
        i += 1;
    }
    assert(certificate_views(out@) =~= certificate_views(list@));
    out
}

/// The extensions of a certificate; an empty list where it has none.
pub open spec fn extension_list(cert: CertificateView) -> Seq<ExtensionView> {
    match cert.extensions {
        Some(list) => list,
        None => Seq::empty(),
    }
}

/// The extensions of `list` with the identifier `oid`, in order.
pub open spec fn with_identifier(list: Seq<ExtensionView>, oid: Seq<u8>) -> Seq<ExtensionView>
    decreases list.len(),
{
    if list.len() == 0 {
        Seq::empty()
    } else if list.last().extn_id == oid {
        with_identifier(list.drop_last(), oid).push(list.last())
    } else {
        with_identifier(list.drop_last(), oid)
    }
}

/// How many extensions of a certificate have the identifier `oid`, and the first
/// of them.
pub fn find_extensions<'a>(cert: &'a Certificate, oid: &[u8]) -> (r: (usize, Option<&'a Extension>))
    ensures
        r.0 == with_identifier(extension_list(cert@), oid@).len(),
        r.1 is Some <==> r.0 > 0,
        r.1 matches Some(e) ==> e@ == with_identifier(extension_list(cert@), oid@)[0],
{
    let list = match &cert.extensions {
        None => return (0, None),
        Some(list) => list,
    };
    let ghost all = extension_views(list@);
    let mut count: usize = 0;
    let mut first: Option<&'a Extension> = None;
    let mut i: usize = 0;
    assert(all.take(0) =~= Seq::<ExtensionView>::empty());
    while i < list.len()
        invariant
            i <= list.len(),
            count <= i,
            all == extension_views(list@),
            count == with_identifier(all.take(i as int), oid@).len(),
            first is Some <==> count > 0,
            first matches Some(e) ==> e@ == with_identifier(all.take(i as int), oid@)[0],
        decreases list.len() - i,
    {
        let e = &list[i];
        assert(all.take(i + 1).drop_last() =~= all.take(i as int));
        assert(all.take(i + 1).last() == e@);
        if bytes_equal(e.extn_id.as_slice(), oid) {
            if count == 0 {
                first = Some(e);
            }
            count += 1;
        }
        i += 1;
    }
    assert(all.take(list.len() as int) =~= all);
    (count, first)
}

/// Whether two certificates have the same subject and the same public key.
pub open spec fn same_identity(a: CertificateView, b: CertificateView) -> bool {
    a.subject == b.subject && a.spki == b.spki
}

/// Whether two certificates have the same subject and the same public key.
pub fn certs_have_same_identity(a: &Certificate, b: &Certificate) -> (r: bool)
    ensures
        r == same_identity(a@, b@),
{
    bytes_equal(a.subject.as_slice(), b.subject.as_slice()) && bytes_equal(
        a.spki.as_slice(),
        b.spki.as_slice(),
    )
}

} // verus!
