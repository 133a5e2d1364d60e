//! What a timestamping certificate must look like, and which certificate signed.

use vstd::prelude::*;

use crate::asn1::{
    any_contents, decode_basic_constraints, decode_bit_string, decode_extended_key_usage,
    decode_general_name, decode_general_names, decode_generalized_time, has_nonzero_padding,
    GeneralName,
};
use crate::bytes::{bytes_equal, head, to_vec};
use crate::cert::{
    find_extensions, Certificate, ID_CE_BASIC_CONSTRAINTS, ID_CE_EXT_KEY_USAGE, ID_CE_KEY_USAGE,
    ID_CE_SUBJECT_ALT_NAME, ID_CE_SUBJECT_KEY_IDENTIFIER,
};
use crate::der_utils::parse_tlv;
use crate::error::{Fault, TspError};
use crate::time::CivilTime;
use crate::tsp::cms::SignerId;
use crate::tsp::field::parse_tst_field;
use crate::tsp::tst_info::TstInfo;
#[allow(unused_imports)]
use crate::asn1::{
    basic_constraints_of, bit_string, canonical_contents, date_from_1970, extended_key_usage_of,
    general_name_of, general_names_of, nonzero_padding, GeneralNameView,
};
#[allow(unused_imports)]
use crate::bytes::views;
#[allow(unused_imports)]
use crate::cert::{extension_list, with_identifier, CertificateView};
#[allow(unused_imports)]
use crate::der_utils::first_element;
#[allow(unused_imports)]
use crate::time::is_digit;
#[allow(unused_imports)]
use crate::tsp::cms::SignerIdView;
#[allow(unused_imports)]
use crate::tsp::ess::failed;
#[allow(unused_imports)]
use crate::tsp::field::{lemma_field_shrinks, tst_field};

verus! {

/// id-kp-timeStamping.
pub const ID_KP_TIME_STAMPING: [u8; 8] = [0x2B, 0x06, 0x01, 0x05, 0x05, 0x07, 0x03, 0x08];

/// The subject key identifier of a certificate: the body of the OCTET STRING in
/// its first extension of that type.
pub open spec fn key_identifier(cert: CertificateView) -> Option<Seq<u8>> {
    let matching = with_identifier(extension_list(cert), ID_CE_SUBJECT_KEY_IDENTIFIER@);
    if matching.len() == 0 {
        None
    } else {
        match first_element(matching[0].extn_value) {
            Ok((tag, body)) => if tag == 0x04 { Some(body) } else { None },
            Err(_) => None,
        }
    }
}

/// The subject key identifier of a certificate.
pub fn cert_ski(cert: &Certificate) -> (r: Option<Vec<u8>>)
    ensures
        crate::agrees_opt(r, key_identifier(cert@)),
{
    let (_, first) = find_extensions(cert, ID_CE_SUBJECT_KEY_IDENTIFIER.as_slice());
    match first {
        None => None,
        Some(e) => match parse_tlv(e.extn_value.as_slice()) {
            Ok((tag, body)) => if tag == 0x04 { Some(body) } else { None },
            Err(_) => None,
        },
    }
}

/// Whether a signer identifier names a certificate.
pub open spec fn signer_id_matches(sid: SignerIdView, cert: CertificateView) -> bool {
    match sid {
        SignerIdView::IssuerAndSerial(issuer, serial) => cert.issuer == issuer
            && cert.serial_number == serial,
        SignerIdView::KeyId(id) => key_identifier(cert) == Some(id),
    }
}

/// Whether a signer identifier names a certificate.
pub fn signer_identifier_matches(sid: &SignerId, cert: &Certificate) -> (r: bool)
    ensures
        r == signer_id_matches(sid@, cert@),
{
    match sid {
        SignerId::IssuerAndSerial(issuer, serial) => bytes_equal(
            cert.issuer.as_slice(),
            issuer.as_slice(),
        ) && bytes_equal(cert.serial_number.as_slice(), serial.as_slice()),
        SignerId::KeyId(id) => match cert_ski(cert) {
            None => false,
            Some(ski) => bytes_equal(ski.as_slice(), id.as_slice()),
        },
    }
}

/// The extended key usage of a timestamping certificate: one critical extension
/// that holds id-kp-timeStamping and nothing else.
pub open spec fn timestamping_eku(cert: CertificateView) -> Result<(), TspError> {
    let matching = with_identifier(extension_list(cert), ID_CE_EXT_KEY_USAGE@);
    if cert.extensions is None {
        failed(Fault::Text("TSA certificate has no extensions (no EKU)"))
    } else if matching.len() == 0 {
        failed(Fault::Text("TSA certificate lacks an extendedKeyUsage extension"))
    } else if matching.len() > 1 {
        failed(Fault::Text("TSA certificate has duplicate extendedKeyUsage extensions"))
    } else if !matching[0].critical {
        failed(
            Fault::Text("TSA certificate extendedKeyUsage is not marked critical (RFC 3161 §2.3)"),
        )
    } else {
        match extended_key_usage_of(matching[0].extn_value) {
            None => failed(Fault::Malformed("TSA extendedKeyUsage")),
            Some(purposes) => if purposes == seq![ID_KP_TIME_STAMPING@] {
                Ok(())
            } else {
                failed(
                    Fault::Text(
                        "TSA certificate extendedKeyUsage must contain only id-kp-timeStamping (RFC 3161 §2.3)",
                    ),
                )
            },
        }
    }
}

/// Requires the extended key usage of a timestamping certificate.
pub fn require_timestamping_eku(cert: &Certificate) -> (r: Result<(), TspError>)
    ensures
        r == timestamping_eku(cert@),
{
    if cert.extensions.is_none() {
        return Err(
            TspError::VerificationFailed(
                Fault::Text("TSA certificate has no extensions (no EKU)"),
            ),
        );
    }
    let (count, first) = find_extensions(cert, ID_CE_EXT_KEY_USAGE.as_slice());
    let ext = match first {
        None => return Err(
            TspError::VerificationFailed(
                Fault::Text("TSA certificate lacks an extendedKeyUsage extension"),
            ),
        ),
        Some(e) => e,
    };
    if count > 1 {
        return Err(
            TspError::VerificationFailed(
                Fault::Text("TSA certificate has duplicate extendedKeyUsage extensions"),
            ),
        );
    }
    if !ext.critical {
        return Err(
            TspError::VerificationFailed(
                Fault::Text(
                    "TSA certificate extendedKeyUsage is not marked critical (RFC 3161 §2.3)",
                ),
            ),
        );
    }
    let purposes = match decode_extended_key_usage(ext.extn_value.as_slice()) {
        None => return Err(TspError::VerificationFailed(Fault::Malformed("TSA extendedKeyUsage"))),
        Some(p) => p,
    };
    if purposes.len() == 1 && bytes_equal(purposes[0].as_slice(), ID_KP_TIME_STAMPING.as_slice()) {
        assert(views(purposes@) =~= seq![ID_KP_TIME_STAMPING@]);
        Ok(())
    } else {
        assert(views(purposes@) != seq![ID_KP_TIME_STAMPING@]) by {
            if views(purposes@) == seq![ID_KP_TIME_STAMPING@] {
                assert(views(purposes@).len() == purposes@.len());
                assert(views(purposes@)[0] == purposes@[0]@);
                assert(views(purposes@)[0] == ID_KP_TIME_STAMPING@);
            }
        }
        Err(
            TspError::VerificationFailed(
                Fault::Text(
                    "TSA certificate extendedKeyUsage must contain only id-kp-timeStamping (RFC 3161 §2.3)",
                ),
            ),
        )
    }
}

/// The unused bits and the octets of a DER-encoded BIT STRING.
pub open spec fn bit_string_element(der: Seq<u8>) -> Option<(u8, Seq<u8>)> {
    match canonical_contents(der) {
        None => None,
        Some(contents) => if der[0] == 0x03 { bit_string(contents) } else { None },
    }
}

/// Reads a DER-encoded BIT STRING.
pub fn read_bit_string(der: &[u8]) -> (r: Option<(u8, &[u8])>)
    ensures
        crate::agrees_opt(r, bit_string_element(der@)),
        r matches Some((unused, _)) ==> unused <= 7,
{
    match any_contents(der) {
        None => None,
        Some(contents) => {
            if der[0] == 0x03 {
                decode_bit_string(contents)
            } else {
                None
            }
        },
    }
}

/// The key usage of a timestamping certificate: absent, or one well-padded BIT
/// STRING that permits digital signatures or non-repudiation.
pub open spec fn signing_key_usage(cert: CertificateView) -> Result<(), TspError> {
    let matching = with_identifier(extension_list(cert), ID_CE_KEY_USAGE@);
    if matching.len() == 0 {
        Ok(())
    } else if matching.len() > 1 {
        failed(Fault::Text("TSA certificate has duplicate keyUsage"))
    } else {
        match bit_string_element(matching[0].extn_value) {
            None => failed(Fault::Malformed("TSA keyUsage")),
            Some((unused, octets)) => if octets.len() == 0 || nonzero_padding(unused, octets) {
                failed(Fault::Text("TSA keyUsage has invalid padding/content"))
            } else if octets[0] < 0x40 {
                failed(Fault::Text("TSA keyUsage does not permit signing"))
            } else {
                Ok(())
            },
        }
    }
}

/// Requires that a present key usage permits signing.
pub fn require_timestamp_signing_key_usage(cert: &Certificate) -> (r: Result<(), TspError>)
    ensures
        r == signing_key_usage(cert@),
{
    let (count, first) = find_extensions(cert, ID_CE_KEY_USAGE.as_slice());
    let ext = match first {
        None => return Ok(()),
        Some(e) => e,
    };
    if count > 1 {
        return Err(
            TspError::VerificationFailed(Fault::Text("TSA certificate has duplicate keyUsage")),
        );
    }
    let (unused, octets) = match read_bit_string(ext.extn_value.as_slice()) {
        None => return Err(TspError::VerificationFailed(Fault::Malformed("TSA keyUsage"))),
        Some(v) => v,
    };
    if octets.len() == 0 || has_nonzero_padding(unused, octets) {
        return Err(
            TspError::VerificationFailed(Fault::Text("TSA keyUsage has invalid padding/content")),
        );
    }
    if octets[0] < 0x40 {
        return Err(
            TspError::VerificationFailed(Fault::Text("TSA keyUsage does not permit signing")),
        );
    }
    Ok(())
}

/// A timestamping certificate is no certification authority.
pub open spec fn not_ca(cert: CertificateView) -> Result<(), TspError> {
    let matching = with_identifier(extension_list(cert), ID_CE_BASIC_CONSTRAINTS@);
    if matching.len() == 0 {
        Ok(())
    } else if matching.len() > 1 {
        failed(Fault::Text("TSA certificate has duplicate basicConstraints extensions"))
    } else {
        match basic_constraints_of(matching[0].extn_value) {
            None => failed(Fault::Malformed("TSA basicConstraints")),
            Some((ca, _)) => if ca {
                failed(
                    Fault::Text(
                        "TSA certificate asserts basicConstraints CA:TRUE (RFC 3161 §2.3)",
                    ),
                )
            } else {
                Ok(())
            },
        }
    }
}

/// Requires that a certificate is no certification authority.
pub fn require_not_ca(cert: &Certificate) -> (r: Result<(), TspError>)
    ensures
        r == not_ca(cert@),
{
    let (count, first) = find_extensions(cert, ID_CE_BASIC_CONSTRAINTS.as_slice());
    let ext = match first {
        None => return Ok(()),
        Some(e) => e,
    };
    if count > 1 {
        return Err(
            TspError::VerificationFailed(
                Fault::Text("TSA certificate has duplicate basicConstraints extensions"),
            ),
        );
    }
    match decode_basic_constraints(ext.extn_value.as_slice()) {
        None => Err(TspError::VerificationFailed(Fault::Malformed("TSA basicConstraints"))),
        Some((ca, _)) => if ca {
            Err(
                TspError::VerificationFailed(
                    Fault::Text(
                        "TSA certificate asserts basicConstraints CA:TRUE (RFC 3161 §2.3)",
                    ),
                ),
            )
        } else {
            Ok(())
        },
    }
}

/// An ASCII letter in lower case; any other byte as it is.
pub open spec fn ascii_lower(b: u8) -> u8 {
    if 0x41 <= b <= 0x5A {
        (b + 0x20) as u8
    } else {
        b
    }
}

/// Two byte strings are equal but for the case of ASCII letters.
pub open spec fn same_ignoring_case(a: Seq<u8>, b: Seq<u8>) -> bool {
    a.len() == b.len() && forall|i: int|
        0 <= i < a.len() ==> ascii_lower(#[trigger] a[i]) == ascii_lower(b[i])
}

fn lower(b: u8) -> (r: u8)
    ensures
        r == ascii_lower(b),
{
    if 0x41 <= b && b <= 0x5A {
        b + 0x20
    } else {
        b
    }
}

/// Whether two byte strings are equal but for the case of ASCII letters.
pub fn eq_ignore_ascii_case(a: &[u8], b: &[u8]) -> (r: bool)
    ensures
        r == same_ignoring_case(a@, b@),
{
    if a.len() != b.len() {
        return false;
    }
    let mut i: usize = 0;
    while i < a.len()
        invariant
            i <= a.len(),
            a.len() == b.len(),
            forall|j: int| 0 <= j < i ==> ascii_lower(#[trigger] a@[j]) == ascii_lower(b@[j]),
        decreases a.len() - i,
    {
        if lower(a[i]) != lower(b[i]) {
            assert(ascii_lower(a@[i as int]) != ascii_lower(b@[i as int]));
            return false;
        }
        i += 1;
    }
    true
}

/// Two names of the same type are equal: DNS names but for case, all others
/// exactly.
pub open spec fn same_name(a: GeneralNameView, b: GeneralNameView) -> bool {
    match (a, b) {
        (GeneralNameView::Dns(x), GeneralNameView::Dns(y)) => same_ignoring_case(x, y),
        _ => a == b,
    }
}

fn names_equal(a: &GeneralName, b: &GeneralName) -> (r: bool)
    ensures
        r == same_name(a@, b@),
{
    match (a, b) {
        (GeneralName::Dns(x), GeneralName::Dns(y)) => eq_ignore_ascii_case(
            x.as_slice(),
            y.as_slice(),
        ),
        (GeneralName::Directory(x), GeneralName::Directory(y)) => bytes_equal(
            x.as_slice(),
            y.as_slice(),
        ),
        (GeneralName::Other(x), GeneralName::Other(y)) => bytes_equal(x.as_slice(), y.as_slice()),
        _ => false,
    }
}

/// A name is among a list of DER-encoded names.
pub open spec fn name_among(name: GeneralNameView, list: Seq<Seq<u8>>) -> bool {
    exists|i: int|
        0 <= i < list.len() && (general_name_of(#[trigger] list[i]) matches Some(g) && same_name(
            name,
            g,
        ))
}

fn is_name_among(name: &GeneralName, list: &Vec<Vec<u8>>) -> (r: bool)
    ensures
        r == name_among(name@, views(list@)),
{
    let mut i: usize = 0;
    while i < list.len()
        invariant
            i <= list.len(),
            forall|j: int|
                0 <= j < i ==> !(general_name_of(#[trigger] views(list@)[j]) matches Some(g)
                    && same_name(name@, g)),
        decreases list.len() - i,
    {
        assert(views(list@)[i as int] == list@[i as int]@);
        match decode_general_name(list[i].as_slice()) {
            Some(g) => {
                if names_equal(name, &g) {
                    return true;
                }
            },
            None => {},
        }
        i += 1;
    }
    false
}

/// A tsa name matches the signer: its subject, or a name of its single
/// subjectAltName.
pub open spec fn tsa_name_matches(field: Seq<u8>, signer: CertificateView) -> Result<
    (),
    TspError,
> {
    match general_name_of(field) {
        None => failed(Fault::Malformed("TSTInfo tsa name is malformed or unsupported")),
        Some(name) => {
            let sans = with_identifier(extension_list(signer), ID_CE_SUBJECT_ALT_NAME@);
            if name == GeneralNameView::Directory(signer.subject) {
                Ok(())
            } else if sans.len() > 1 {
                failed(Fault::Text("TSA certificate has duplicate subjectAltName"))
            } else if sans.len() == 1 && general_names_of(sans[0].extn_value) is None {
                failed(Fault::Malformed("TSA subjectAltName"))
            } else if sans.len() == 1 && name_among(
                name,
                general_names_of(sans[0].extn_value)->0,
            ) {
                Ok(())
            } else {
                failed(
                    Fault::Text("TSTInfo tsa does not match signer subject or subjectAltName"),
                )
            }
        },
    }
}

fn check_tsa_name(field: &[u8], signer: &Certificate) -> (r: Result<(), TspError>)
    ensures
        r == tsa_name_matches(field@, signer@),
{
    let name = match decode_general_name(field) {
        None => return Err(
            TspError::VerificationFailed(
                Fault::Malformed("TSTInfo tsa name is malformed or unsupported"),
            ),
        ),
        Some(n) => n,
    };
    match &name {
        GeneralName::Directory(d) => {
            if bytes_equal(d.as_slice(), signer.subject.as_slice()) {
                return Ok(());
            }
        },
        _ => {},
    }
    let (count, first) = find_extensions(signer, ID_CE_SUBJECT_ALT_NAME.as_slice());
    if count > 1 {
        return Err(
            TspError::VerificationFailed(
                Fault::Text("TSA certificate has duplicate subjectAltName"),
            ),
        );
    }
    match first {
        Some(san) => {
            match decode_general_names(san.extn_value.as_slice()) {
                None => return Err(
                    TspError::VerificationFailed(Fault::Malformed("TSA subjectAltName")),
                ),
                Some(list) => {
                    if is_name_among(&name, &list) {
                        return Ok(());
                    }
                },
            }
        },
        None => {},
    }
    Err(
        TspError::VerificationFailed(
            Fault::Text("TSTInfo tsa does not match signer subject or subjectAltName"),
        ),
    )
}

/// The first tsa field among the fields of a TSTInfo matches the signer.
pub open spec fn tsa_among_fields(s: Seq<u8>, signer: CertificateView) -> Result<(), TspError>
    decreases s.len(),
{
    if s.len() == 0 {
        Ok(())
    } else {
        proof {
            lemma_field_shrinks(s, s[0], "TSTInfo identity");
        }
        match tst_field(s, s[0], "TSTInfo identity") {
            Err(e) => Err(e),
            Ok((field, rest)) => if s[0] == 0xA0 {
                tsa_name_matches(field, signer)
            } else {
                tsa_among_fields(rest, signer)
            },
        }
    }
}

/// A tsa name of a TSTInfo, where there is one, matches the signer.
pub open spec fn tsa_identity(tst: Seq<u8>, signer: CertificateView) -> Result<(), TspError> {
    match tst_field(tst, 0x30, "TSTInfo") {
        Err(e) => Err(e),
        Ok((sequence, _)) => tsa_among_fields(sequence, signer),
    }
}

/// Checks that a tsa name of a TSTInfo matches the signer.
pub fn check_tsa_identity(tst_der: &[u8], signer: &Certificate) -> (r: Result<(), TspError>)
    ensures
        r == tsa_identity(tst_der@, signer@),
{
    let (sequence, _) = parse_tst_field(tst_der, 0x30, "TSTInfo")?;
    let mut pos: &[u8] = sequence;
    while pos.len() != 0
        invariant
            tsa_among_fields(pos@, signer@) == tsa_identity(tst_der@, signer@),
        decreases pos.len(),
    {
        let tag: u8 = pos[0];
        proof {
            lemma_field_shrinks(pos@, tag, "TSTInfo identity");
        }
        let (field, rest) = parse_tst_field(pos, tag, "TSTInfo identity")?;
        if tag == 0xA0 {
            return check_tsa_name(field, signer);
        }
        pos = rest;
    }
    Ok(())
}

/// The calendar time of a genTime, and whether a fraction of a second follows:
/// `YYYYMMDDhhmmssZ`, or with a point and digits that do not end in zero before
/// the `Z`.
pub open spec fn gen_time(bytes: Seq<u8>) -> Result<(CivilTime, bool), TspError> {
    let whole = bytes.len() == 15 && bytes[14] == 0x5A;
    let fractional = bytes.len() >= 17 && bytes[14] == 0x2E && bytes.last() == 0x5A && (forall|
        i: int,
    |
        15 <= i < bytes.len() - 1 ==> is_digit(#[trigger] bytes[i])) && bytes[bytes.len() - 2]
        != 0x30;
    if !whole && !fractional {
        failed(Fault::Text("invalid DER genTime fractional/UTC encoding"))
    } else {
        match date_from_1970(bytes.take(14).push(0x5A)) {
            None => failed(Fault::Malformed("invalid genTime")),
            Some(t) => Ok((t, !whole)),
        }
    }
}

/// Reads a genTime: its calendar time, and whether a fraction of a second follows.
pub fn gen_time_parts(tst_info: &TstInfo) -> (r: Result<(CivilTime, bool), TspError>)
    ensures
        r == gen_time(tst_info@.gen_time_der),
        r matches Ok((t, _)) ==> t.valid(),
{
    let bytes: &[u8] = tst_info.gen_time_der.as_slice();
    let fractional: bool = if bytes.len() == 15 && bytes[14] == 0x5A {
        false
    } else if bytes.len() >= 17 && bytes[14] == 0x2E && bytes[bytes.len() - 1] == 0x5A
        && bytes[bytes.len() - 2] != 0x30 {
        let mut i: usize = 15;
        while i < bytes.len() - 1
            invariant
                bytes.len() >= 17,
                15 <= i <= bytes.len() - 1,
                forall|j: int| 15 <= j < i ==> is_digit(#[trigger] bytes@[j]),
                bytes@ == tst_info@.gen_time_der,
            decreases bytes.len() - i,
        {
            if bytes[i] < 0x30 || bytes[i] > 0x39 {
                assert(!is_digit(bytes@[i as int]));
                return Err(
                    TspError::VerificationFailed(
                        Fault::Text("invalid DER genTime fractional/UTC encoding"),
                    ),
                );
            }
            i += 1;
        }
        true
    } else {
        return Err(
            TspError::VerificationFailed(
                Fault::Text("invalid DER genTime fractional/UTC encoding"),
            ),
        );
    };
    let mut seconds: Vec<u8> = to_vec(head(bytes, 14));
    seconds.push(0x5A);
    match decode_generalized_time(seconds.as_slice()) {
        None => Err(TspError::VerificationFailed(Fault::Malformed("invalid genTime"))),
        Some(t) => Ok((t, fractional)),
    }
}

/// Reads the calendar time of a genTime.
pub fn gen_time_datetime(tst_info: &TstInfo) -> (r: Result<CivilTime, TspError>)
    ensures
        match (r, gen_time(tst_info@.gen_time_der)) {
            (Ok(t), Ok((u, _))) => t == u && t.valid(),
            (Err(e), Err(f)) => e == f,
            _ => false,
        },
{
    let (time, _) = gen_time_parts(tst_info)?;
    Ok(time)
}

/// The time of a token lies within the validity of its signer. The validity ends
/// with its last second, so that a fraction after that second is outside.
pub open spec fn gen_time_within(signer: CertificateView, gen_time_der: Seq<u8>) -> Result<
    (),
    TspError,
> {
    match gen_time(gen_time_der) {
        Err(e) => Err(e),
        Ok((t, fractional)) => if t.epoch_seconds() < signer.not_before || t.epoch_seconds()
            > signer.not_after || (fractional && t.epoch_seconds() == signer.not_after) {
            failed(Fault::Text("timestamp genTime is outside the TSA certificate validity"))
        } else {
            Ok(())
        },
    }
}

/// Checks that the time of a token lies within the validity of its signer.
pub fn check_gen_time_within_validity(signer: &Certificate, tst_info: &TstInfo) -> (r: Result<
    (),
    TspError,
>)
    ensures
        r == gen_time_within(signer@, tst_info@.gen_time_der),
{
    let (time, fractional) = gen_time_parts(tst_info)?;
    let at: i128 = time.to_epoch_seconds() as i128;
    let not_before: i128 = signer.not_before as i128;
    let not_after: i128 = signer.not_after as i128;
    if at < not_before || at > not_after || (fractional && at == not_after) {
        return Err(
            TspError::VerificationFailed(
                Fault::Text("timestamp genTime is outside the TSA certificate validity"),
            ),
        );
    }
    Ok(())
}

/// The last second of the validity is inside it, any fraction after it is not.
pub proof fn law_validity_end(signer: CertificateView, gen_time_der: Seq<u8>)
    requires
        gen_time(gen_time_der) matches Ok((t, _)) && t.epoch_seconds() == signer.not_after,
        signer.not_before <= signer.not_after,
    ensures
        gen_time_within(signer, gen_time_der) is Ok <==> gen_time_der.len() == 15,
{
}

} // verus!
