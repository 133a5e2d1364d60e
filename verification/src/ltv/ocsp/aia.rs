//! Responder addresses in certificates.

use vstd::prelude::*;

use crate::bytes::bytes_equal;
use crate::cert::Certificate;
use crate::error::{Fault, LtvError};
use crate::ltv::ocsp::response::parse_field;
use crate::text::utf8_text;
#[allow(unused_imports)]
use crate::asn1::{extension_views, ExtensionView};
#[allow(unused_imports)]
use crate::cert::extension_list;
#[allow(unused_imports)]
use crate::ltv::ocsp::response::{lemma_ocsp_field_shrinks, ocsp, ocsp_field};
#[allow(unused_imports)]
use crate::opt_view;
#[allow(unused_imports)]
use crate::text::utf8_of;

verus! {

/// id-pe-authorityInfoAccess.
pub const ID_PE_AUTHORITY_INFO_ACCESS: [u8; 8] = [0x2B, 0x06, 0x01, 0x05, 0x05, 0x07, 0x01, 0x01];

/// id-ad-ocsp.
pub const ID_AD_OCSP: [u8; 8] = [0x2B, 0x06, 0x01, 0x05, 0x05, 0x07, 0x30, 0x01];

/// id-ad-caIssuers.
pub const ID_AD_CA_ISSUERS: [u8; 8] = [0x2B, 0x06, 0x01, 0x05, 0x05, 0x07, 0x30, 0x02];

/// What an address in the authority information access extension is for.
#[derive(Debug, Clone, Copy, PartialEq, Eq, Structural)]
pub enum AiaAccessMethod {
    /// An OCSP responder.
    Ocsp,
    /// The issuer's certificates.
    CaIssuers,
}

/// The object identifier body of an access method.
pub open spec fn method_oid(method: AiaAccessMethod) -> Seq<u8> {
    match method {
        AiaAccessMethod::Ocsp => ID_AD_OCSP@,
        AiaAccessMethod::CaIssuers => ID_AD_CA_ISSUERS@,
    }
}

/// The views of a sequence of texts.
pub open spec fn text_views(s: Seq<String>) -> Seq<Seq<char>> {
    s.map_values(|t: String| t@)
}

/// The address of one AccessDescription body, where it is a URI for the method.
pub open spec fn access_url(body: Seq<u8>, method: Seq<u8>) -> Result<Option<Seq<char>>, LtvError> {
    match ocsp_field(body, "AIA parse error") {
        Err(e) => Err(e),
        Ok((tag, oid, rest)) => if tag != 0x06 || oid != method || rest.len() == 0 {
            Ok(None)
        } else {
            match ocsp_field(rest, "AIA parse error") {
                Err(e) => Err(e),
                Ok((name_tag, name, _)) => if name_tag == 0x86 {
                    Ok(utf8_of(name))
                } else {
                    Ok(None)
                },
            }
        },
    }
}

/// The addresses for a method in a list of AccessDescriptions, after those of
/// `found`.
pub open spec fn access_urls(s: Seq<u8>, method: Seq<u8>, found: Seq<Seq<char>>) -> Result<
    Seq<Seq<char>>,
    LtvError,
>
    decreases s.len(),
{
    if s.len() == 0 {
        Ok(found)
    } else {
        proof {
            lemma_ocsp_field_shrinks(s, "AIA parse error");
        }
        match ocsp_field(s, "AIA parse error") {
            Err(e) => Err(e),
            Ok((tag, body, rest)) => if tag != 0x30 {
                access_urls(rest, method, found)
            } else {
                match access_url(body, method) {
                    Err(e) => Err(e),
                    Ok(None) => access_urls(rest, method, found),
                    Ok(Some(url)) => access_urls(rest, method, found.push(url)),
                }
            },
        }
    }
}

/// The addresses for a method in an authority information access extension.
pub open spec fn aia_urls(der: Seq<u8>, method: Seq<u8>) -> Result<Seq<Seq<char>>, LtvError> {
    match ocsp_field(der, "AIA parse error") {
        Err(e) => Err(e),
        Ok((tag, body, _)) => if tag != 0x30 {
            ocsp(Fault::Tag("AIA: expected SEQUENCE, got ", tag))
        } else {
            access_urls(body, method, Seq::empty())
        },
    }
}

fn parse_access_url(body: &[u8], method: &[u8]) -> (r: Result<Option<String>, LtvError>)
    ensures
        match (r, access_url(body@, method@)) {
            (Ok(u), Ok(v)) => opt_view(u) == v,
            (Err(e), Err(f)) => e == f,
            _ => false,
        },
{
    let (tag, oid, rest) = parse_field(body, "AIA parse error")?;
    if tag != 0x06 || !bytes_equal(oid, method) || rest.len() == 0 {
        return Ok(None);
    }
    let (name_tag, name, _) = parse_field(rest, "AIA parse error")?;
    if name_tag == 0x86 {
        Ok(utf8_text(name))
    } else {
        Ok(None)
    }
}

/// Parses an authority information access extension; returns the addresses for
/// the access method with the given object identifier body.
pub fn parse_aia_extension(der_bytes: &[u8], target_method_oid: &[u8]) -> (r: Result<
    Vec<String>,
    LtvError,
>)
    ensures
        match (r, aia_urls(der_bytes@, target_method_oid@)) {
            (Ok(v), Ok(w)) => text_views(v@) == w,
            (Err(e), Err(f)) => e == f,
            _ => false,
        },
{
    let (tag, body, _) = parse_field(der_bytes, "AIA parse error")?;
    if tag != 0x30 {
        return Err(LtvError::Ocsp(Fault::Tag("AIA: expected SEQUENCE, got ", tag)));
    }
    let mut urls: Vec<String> = Vec::new();
    assert(text_views(urls@) =~= Seq::<Seq<char>>::empty());
    let mut pos: &[u8] = body;
    while pos.len() != 0
        invariant
            access_urls(pos@, target_method_oid@, text_views(urls@)) == aia_urls(
                der_bytes@,
                target_method_oid@,
            ),
        decreases pos.len(),
    {
        let (ad_tag, ad, rest) = parse_field(pos, "AIA parse error")?;
        if ad_tag == 0x30 {
            match parse_access_url(ad, target_method_oid)? {
                Some(url) => {
                    let ghost before = text_views(urls@);
                    urls.push(url);
                    assert(text_views(urls@) =~= before.push(url@));
                },
                None => {},
            }
        }
        pos = rest;
    }
    Ok(urls)
}

/// The addresses for a method in the extensions from index `i` on, after those of
/// `found`. An extension that cannot be parsed adds nothing.
pub open spec fn certificate_urls(
    list: Seq<ExtensionView>,
    method: Seq<u8>,
    i: nat,
    found: Seq<Seq<char>>,
) -> Seq<Seq<char>>
    decreases list.len() - i,
{
    if i >= list.len() {
        found
    } else if list[i as int].extn_id != ID_PE_AUTHORITY_INFO_ACCESS@ {
        certificate_urls(list, method, i + 1, found)
    } else {
        match aia_urls(list[i as int].extn_value, method) {
            Ok(urls) => certificate_urls(list, method, i + 1, found + urls),
            Err(_) => certificate_urls(list, method, i + 1, found),
        }
    }
}

/// The addresses for a method in the extensions of a certificate.
pub fn extract_aia_urls(cert: &Certificate, method: AiaAccessMethod) -> (r: Vec<String>)
    ensures
        text_views(r@) == certificate_urls(
            extension_list(cert@),
            method_oid(method),
            0,
            Seq::empty(),
        ),
{
    let mut urls: Vec<String> = Vec::new();
    assert(text_views(urls@) =~= Seq::<Seq<char>>::empty());
    let list = match &cert.extensions {
        None => return urls,
        Some(list) => list,
    };
    let ghost all = extension_views(list@);
    let oid: [u8; 8] = match method {
        AiaAccessMethod::Ocsp => ID_AD_OCSP,
        AiaAccessMethod::CaIssuers => ID_AD_CA_ISSUERS,
    };
    let mut i: usize = 0;
    while i < list.len()
        invariant
            i <= list.len(),
            all == extension_views(list@),
            oid@ == method_oid(method),
            certificate_urls(all, method_oid(method), i as nat, text_views(urls@))
                == certificate_urls(all, method_oid(method), 0, Seq::empty()),
        decreases list.len() - i,
    {
        assert(all[i as int] == list@[i as int]@);
        if bytes_equal(list[i].extn_id.as_slice(), ID_PE_AUTHORITY_INFO_ACCESS.as_slice()) {
            match parse_aia_extension(list[i].extn_value.as_slice(), oid.as_slice()) {
                Ok(parsed) => {
                    let ghost before = text_views(urls@);
                    let ghost more = text_views(parsed@);
                    let mut parsed = parsed;
                    urls.append(&mut parsed);
                    assert(text_views(urls@) =~= before + more);
                },
                Err(_) => {},
            }
        }
        i += 1;
    }
    urls
}

/// The OCSP responder addresses of a certificate.
pub fn extract_ocsp_urls(cert: &Certificate) -> (r: Vec<String>)
    ensures
        text_views(r@) == certificate_urls(extension_list(cert@), ID_AD_OCSP@, 0, Seq::empty()),
{
    extract_aia_urls(cert, AiaAccessMethod::Ocsp)
}

} // verus!
