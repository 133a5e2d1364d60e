//! ESS signing-certificate attributes: which certificate a signature is bound to.

use vstd::prelude::*;

use crate::asn1::{
    decode_algorithm_id, decode_general_name, decode_general_names, decodes_as_serial, GeneralName,
};
use crate::bytes::{bytes_equal, to_vec};
use crate::cert::Certificate;
use crate::crypto::algorithm::{hash, same_bytes, DigestAlgorithm, HashAlgorithm};
use crate::der_utils::encode_tlv;
use crate::error::{Fault, TspError};
use crate::tsp::cms::{find_attribute, Attribute};
use crate::tsp::field::parse_tst_field;
use crate::tsp::tst_info::DER_NULL;
#[allow(unused_imports)]
use crate::agrees;
#[allow(unused_imports)]
use crate::asn1::{
    algorithm_id_of, general_name_of, general_names_of, int_canonical, GeneralNameView,
};
#[allow(unused_imports)]
use crate::bytes::views;
#[allow(unused_imports)]
use crate::cert::CertificateView;
#[allow(unused_imports)]
use crate::crypto::algorithm::{digest_from_oid, hash_of, hash_size};
#[allow(unused_imports)]
use crate::der_utils::tlv_bytes;
#[allow(unused_imports)]
use crate::opt_view;
#[allow(unused_imports)]
use crate::tsp::cms::{attribute_views, single_value, AttributeView};
#[allow(unused_imports)]
use crate::tsp::field::tst_field;
#[allow(unused_imports)]
use crate::tsp::tst_info::invalid;

verus! {

/// id-aa-signingCertificate.
pub const ID_SIGNING_CERTIFICATE: [u8; 11] = [
    0x2A, 0x86, 0x48, 0x86, 0xF7, 0x0D, 0x01, 0x09, 0x10, 0x02, 0x0C,
];

/// id-aa-signingCertificateV2.
pub const ID_SIGNING_CERTIFICATE_V2: [u8; 11] = [
    0x2A, 0x86, 0x48, 0x86, 0xF7, 0x0D, 0x01, 0x09, 0x10, 0x02, 0x2F,
];

/// The certificate that a signature is bound to: the hash of its DER, and where
/// they are written its issuer's Name and the contents of its serial number.
#[derive(Debug)]
pub struct EssBinding {
    pub digest: HashAlgorithm,
    pub hash: Vec<u8>,
    pub issuer_serial: Option<(Vec<u8>, Vec<u8>)>,
}

/// What an [`EssBinding`] holds.
#[verifier::ext_equal]
pub struct EssBindingView {
    pub digest: HashAlgorithm,
    pub hash: Seq<u8>,
    pub issuer_serial: Option<(Seq<u8>, Seq<u8>)>,
}

impl View for EssBinding {
    type V = EssBindingView;

    open spec fn view(&self) -> EssBindingView {
        EssBindingView {
            digest: self.digest,
            hash: self.hash@,
            issuer_serial: match self.issuer_serial {
                Some((issuer, serial)) => Some((issuer@, serial@)),
                None => None,
            },
        }
    }
}

/// The views of a sequence of bindings.
pub open spec fn binding_views(s: Seq<EssBinding>) -> Seq<EssBindingView> {
    s.map_values(|b: EssBinding| b@)
}

/// A `VerificationFailed` error.
pub open spec fn failed<T>(fault: Fault) -> Result<T, TspError> {
    Err(TspError::VerificationFailed(fault))
}

/// Whether a binding identifies a certificate.
pub open spec fn binding_matches(binding: EssBindingView, cert: CertificateView) -> Result<
    bool,
    TspError,
> {
    if binding.issuer_serial is Some && binding.issuer_serial != Some(
        (cert.issuer, cert.serial_number),
    ) {
        Ok(false)
    } else {
        match hash_of(binding.digest, cert.der) {
            None => Err(TspError::Crypto),
            Some(h) => Ok(h == binding.hash),
        }
    }
}

impl EssBinding {
    /// Whether the binding identifies `cert`.
    pub fn matches(&self, cert: &Certificate) -> (r: Result<bool, TspError>)
        ensures
            r == binding_matches(self@, cert@),
    {
        match &self.issuer_serial {
            Some((issuer, serial)) => {
                if !bytes_equal(issuer.as_slice(), cert.issuer.as_slice()) || !bytes_equal(
                    serial.as_slice(),
                    cert.serial_number.as_slice(),
                ) {
                    return Ok(false);
                }
            },
            None => {},
        }
        match hash(self.digest, cert.der.as_slice()) {
            None => Err(TspError::Crypto),
            Some(h) => Ok(same_bytes(h.as_slice(), self.hash.as_slice())),
        }
    }
}

/// The hash algorithm of a certificate identifier, and what follows it. Version 1
/// uses SHA-1; version 2 names a SHA-2 or SHA-3 algorithm or uses SHA-256.
pub open spec fn ess_hash_algorithm(id: Seq<u8>, v2: bool) -> Result<
    (HashAlgorithm, Seq<u8>),
    TspError,
> {
    if v2 && id.len() > 0 && id[0] == 0x30 {
        match tst_field(id, 0x30, "ESS hashAlgorithm") {
            Err(e) => Err(e),
            Ok((contents, rest)) => match algorithm_id_of(tlv_bytes(0x30, contents)) {
                None => invalid(Fault::Malformed("ESS hashAlgorithm")),
                Some(alg) => if alg.parameters is Some && alg.parameters->0 != DER_NULL@ {
                    invalid(Fault::Text("ESS hash parameters must be absent or NULL"))
                } else {
                    match digest_from_oid(alg.oid) {
                        None => invalid(Fault::Text("unsupported hash algorithm OID")),
                        Some(digest) => Ok((HashAlgorithm::Digest(digest), rest)),
                    }
                },
            },
        }
    } else if v2 {
        Ok((HashAlgorithm::Digest(DigestAlgorithm::Sha256), id))
    } else {
        Ok((HashAlgorithm::Sha1, id))
    }
}

fn parse_ess_hash_algorithm(id: &[u8], v2: bool) -> (r: Result<(HashAlgorithm, &[u8]), TspError>)
    ensures
        match (r, ess_hash_algorithm(id@, v2)) {
            (Ok((alg, rest)), Ok((a, s))) => alg == a && rest@ == s,
            (Err(e), Err(f)) => e == f,
            _ => false,
        },
{
    if v2 && id.len() > 0 && id[0] == 0x30 {
        let (contents, rest) = parse_tst_field(id, 0x30, "ESS hashAlgorithm")?;
        let element: Vec<u8> = encode_tlv(0x30, contents);
        let alg = match decode_algorithm_id(element.as_slice()) {
            None => return Err(TspError::InvalidResponse(Fault::Malformed("ESS hashAlgorithm"))),
            Some(a) => a,
        };
        match &alg.parameters {
            Some(p) => {
                if !bytes_equal(p.as_slice(), DER_NULL.as_slice()) {
                    return Err(
                        TspError::InvalidResponse(
                            Fault::Text("ESS hash parameters must be absent or NULL"),
                        ),
                    );
                }
            },
            None => {},
        }
        match DigestAlgorithm::from_oid(alg.oid.as_slice()) {
            None => Err(TspError::InvalidResponse(Fault::Text("unsupported hash algorithm OID"))),
            Some(digest) => Ok((HashAlgorithm::Digest(digest), rest)),
        }
    } else if v2 {
        Ok((HashAlgorithm::Digest(DigestAlgorithm::Sha256), id))
    } else {
        Ok((HashAlgorithm::Sha1, id))
    }
}

/// The directory name of a list of exactly one directoryName.
pub open spec fn single_directory(names: Seq<Seq<u8>>) -> Option<Seq<u8>> {
    if names.len() != 1 {
        None
    } else {
        match general_name_of(names[0]) {
            Some(GeneralNameView::Directory(d)) => Some(d),
            _ => None,
        }
    }
}

/// The issuer's Name and the serial number contents of an IssuerSerial; none
/// where nothing is written.
pub open spec fn ess_issuer_serial(s: Seq<u8>) -> Result<Option<(Seq<u8>, Seq<u8>)>, TspError> {
    if s.len() == 0 {
        Ok(None)
    } else {
        match tst_field(s, 0x30, "ESS issuerSerial") {
            Err(e) => Err(e),
            Ok((body, trailing)) => if trailing.len() != 0 {
                invalid(Fault::Text("ESS certificate ID trailing fields"))
            } else {
                match tst_field(body, 0x30, "ESS issuer names") {
                    Err(e) => Err(e),
                    Ok((names, rest)) => match general_names_of(tlv_bytes(0x30, names)) {
                        None => invalid(Fault::Malformed("ESS issuer names")),
                        Some(list) => match single_directory(list) {
                            None => invalid(
                                Fault::Text("ESS issuer must be exactly one directoryName"),
                            ),
                            Some(issuer) => match tst_field(rest, 0x02, "ESS serialNumber") {
                                Err(e) => Err(e),
                                Ok((serial, after)) => if after.len() != 0 {
                                    invalid(Fault::Text("ESS issuerSerial trailing fields"))
                                } else if !(int_canonical(serial) && serial.len() <= 21) {
                                    invalid(Fault::Malformed("ESS serialNumber"))
                                } else {
                                    Ok(Some((issuer, serial)))
                                },
                            },
                        },
                    },
                }
            },
        }
    }
}

fn parse_ess_issuer_serial(s: &[u8]) -> (r: Result<Option<(Vec<u8>, Vec<u8>)>, TspError>)
    ensures
        match (r, ess_issuer_serial(s@)) {
            (Ok(None), Ok(None)) => true,
            (Ok(Some((i, n))), Ok(Some((j, m)))) => i@ == j && n@ == m,
            (Err(e), Err(f)) => e == f,
            _ => false,
        },
{
    if s.len() == 0 {
        return Ok(None);
    }
    let (body, trailing) = parse_tst_field(s, 0x30, "ESS issuerSerial")?;
    if trailing.len() != 0 {
        return Err(TspError::InvalidResponse(Fault::Text("ESS certificate ID trailing fields")));
    }
    let (names, rest) = parse_tst_field(body, 0x30, "ESS issuer names")?;
    let element: Vec<u8> = encode_tlv(0x30, names);
    let list = match decode_general_names(element.as_slice()) {
        None => return Err(TspError::InvalidResponse(Fault::Malformed("ESS issuer names"))),
        Some(l) => l,
    };
    if list.len() != 1 {
        return Err(
            TspError::InvalidResponse(Fault::Text("ESS issuer must be exactly one directoryName")),
        );
    }
    assert(views(list@)[0] == list@[0]@);
    let issuer: Vec<u8> = match decode_general_name(list[0].as_slice()) {
        Some(GeneralName::Directory(d)) => d,
        _ => return Err(
            TspError::InvalidResponse(Fault::Text("ESS issuer must be exactly one directoryName")),
        ),
    };
    let (serial, after) = parse_tst_field(rest, 0x02, "ESS serialNumber")?;
    if after.len() != 0 {
        return Err(TspError::InvalidResponse(Fault::Text("ESS issuerSerial trailing fields")));
    }
    if !decodes_as_serial(serial) {
        return Err(TspError::InvalidResponse(Fault::Malformed("ESS serialNumber")));
    }
    Ok(Some((issuer, to_vec(serial))))
}

/// The binding that a certificate identifier makes.
pub open spec fn ess_certificate_id(id: Seq<u8>, v2: bool) -> Result<EssBindingView, TspError> {
    match ess_hash_algorithm(id, v2) {
        Err(e) => Err(e),
        Ok((digest, s1)) => match tst_field(s1, 0x04, "ESS certHash") {
            Err(e) => Err(e),
            Ok((hash, rest)) => if hash.len() != hash_size(digest) {
                invalid(Fault::Text("ESS certHash has incorrect length"))
            } else {
                match ess_issuer_serial(rest) {
                    Err(e) => Err(e),
                    Ok(issuer_serial) => Ok(EssBindingView { digest, hash, issuer_serial }),
                }
            },
        },
    }
}

/// The binding that a signing-certificate attribute value makes: exactly one
/// certificate identifier and no policies.
pub open spec fn ess_binding(value: Seq<u8>, v2: bool) -> Result<EssBindingView, TspError> {
    match tst_field(value, 0x30, "ESS signing certificate") {
        Err(e) => Err(e),
        Ok((attribute, trailing)) => if trailing.len() != 0 {
            invalid(Fault::Text("ESS trailing data"))
        } else {
            match tst_field(attribute, 0x30, "ESS certs") {
                Err(e) => Err(e),
                Ok((certs, policies)) => if policies.len() != 0 {
                    failed(Fault::Text("ESS certificate policy restrictions are unsupported"))
                } else {
                    match tst_field(certs, 0x30, "ESS certificate ID") {
                        Err(e) => Err(e),
                        Ok((id, more)) => if more.len() != 0 {
                            failed(
                                Fault::Text(
                                    "ESS multiple certificate restrictions are unsupported",
                                ),
                            )
                        } else {
                            ess_certificate_id(id, v2)
                        },
                    }
                },
            }
        },
    }
}

/// Parses the value of a signing-certificate attribute.
pub fn parse_ess_binding(value: &[u8], v2: bool) -> (r: Result<EssBinding, TspError>)
    ensures
        agrees(r, ess_binding(value@, v2)),
{
    let (attribute, trailing) = parse_tst_field(value, 0x30, "ESS signing certificate")?;
    if trailing.len() != 0 {
        return Err(TspError::InvalidResponse(Fault::Text("ESS trailing data")));
    }
    let (certs, policies) = parse_tst_field(attribute, 0x30, "ESS certs")?;
    if policies.len() != 0 {
        return Err(
            TspError::VerificationFailed(
                Fault::Text("ESS certificate policy restrictions are unsupported"),
            ),
        );
    }
    let (id, more) = parse_tst_field(certs, 0x30, "ESS certificate ID")?;
    if more.len() != 0 {
        return Err(
            TspError::VerificationFailed(
                Fault::Text("ESS multiple certificate restrictions are unsupported"),
            ),
        );
    }
    let (digest, s1) = parse_ess_hash_algorithm(id, v2)?;
    let (hash, rest) = parse_tst_field(s1, 0x04, "ESS certHash")?;
    if hash.len() != digest.output_size() {
        return Err(TspError::InvalidResponse(Fault::Text("ESS certHash has incorrect length")));
    }
    let issuer_serial: Option<(Vec<u8>, Vec<u8>)> = parse_ess_issuer_serial(rest)?;
    Ok(EssBinding { digest, hash: to_vec(hash), issuer_serial })
}

/// The binding of one attribute type; none where the attribute is absent.
pub open spec fn attribute_binding(attrs: Seq<AttributeView>, oid: Seq<u8>, v2: bool) -> Result<
    Option<EssBindingView>,
    TspError,
> {
    match single_value(attrs, oid) {
        Err(e) => Err(e),
        Ok(None) => Ok(None),
        Ok(Some(value)) => match ess_binding(value, v2) {
            Err(e) => Err(e),
            Ok(b) => Ok(Some(b)),
        },
    }
}

fn find_attribute_binding(attrs: &Vec<Attribute>, oid: &[u8], v2: bool) -> (r: Result<
    Option<EssBinding>,
    TspError,
>)
    ensures
        match (r, attribute_binding(attribute_views(attrs@), oid@, v2)) {
            (Ok(b), Ok(c)) => opt_view(b) == c,
            (Err(e), Err(f)) => e == f,
            _ => false,
        },
{
    match find_attribute(attrs, oid)? {
        None => Ok(None),
        Some(value) => Ok(Some(parse_ess_binding(value.as_slice(), v2)?)),
    }
}

/// The bindings of the signed attributes: version 1 first, then version 2, and at
/// least one of the two.
pub open spec fn ess_bindings(attrs: Seq<AttributeView>) -> Result<Seq<EssBindingView>, TspError> {
    match attribute_binding(attrs, ID_SIGNING_CERTIFICATE@, false) {
        Err(e) => Err(e),
        Ok(v1) => match attribute_binding(attrs, ID_SIGNING_CERTIFICATE_V2@, true) {
            Err(e) => Err(e),
            Ok(v2) => match (v1, v2) {
                (None, None) => failed(
                    Fault::Text(
                        "timestamp signedAttrs lacks ESS SigningCertificate/SigningCertificateV2",
                    ),
                ),
                (Some(a), None) => Ok(seq![a]),
                (None, Some(b)) => Ok(seq![b]),
                (Some(a), Some(b)) => Ok(seq![a, b]),
            },
        },
    }
}

/// Collects the certificate bindings of the signed attributes.
pub fn signing_certificate_bindings(attrs: &Vec<Attribute>) -> (r: Result<
    Vec<EssBinding>,
    TspError,
>)
    ensures
        match (r, ess_bindings(attribute_views(attrs@))) {
            (Ok(v), Ok(w)) => binding_views(v@) == w,
            (Err(e), Err(f)) => e == f,
            _ => false,
        },
{
    let mut bindings: Vec<EssBinding> = Vec::new();
    match find_attribute_binding(attrs, ID_SIGNING_CERTIFICATE.as_slice(), false)? {
        Some(b) => bindings.push(b),
        None => {},
    }
    let ghost first = bindings@;
    match find_attribute_binding(attrs, ID_SIGNING_CERTIFICATE_V2.as_slice(), true)? {
        Some(b) => bindings.push(b),
        None => {},
    }
    if bindings.len() == 0 {
        return Err(
            TspError::VerificationFailed(
                Fault::Text(
                    "timestamp signedAttrs lacks ESS SigningCertificate/SigningCertificateV2",
                ),
            ),
        );
    }
    assert(match ess_bindings(attribute_views(attrs@)) {
        Ok(w) => binding_views(bindings@) =~= w,
        Err(_) => false,
    });
    Ok(bindings)
}

/// Version 1 binds by SHA-1, and version 2 only by a SHA-2 or SHA-3 hash.
pub proof fn law_binding_algorithms(value: Seq<u8>)
    ensures
        ess_binding(value, false) matches Ok(b) ==> b.digest is Sha1,
        ess_binding(value, true) matches Ok(b) ==> b.digest is Digest,
{
}

/// A binding holds at most one certificate of any list whose members have
/// different hashes: two certificates that it identifies have the same hash.
pub proof fn law_binding_fixes_hash(
    binding: EssBindingView,
    a: CertificateView,
    b: CertificateView,
)
    requires
        binding_matches(binding, a) == Ok::<bool, TspError>(true),
        binding_matches(binding, b) == Ok::<bool, TspError>(true),
    ensures
        hash_of(binding.digest, a.der) == hash_of(binding.digest, b.der),
        binding.issuer_serial is Some ==> a.issuer == b.issuer && a.serial_number
            == b.serial_number,
{
}

} // verus!
