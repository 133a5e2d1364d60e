//! What is read of a certificate and of its extensions.

use vstd::prelude::*;

#[allow(unused_imports)]
use crate::asn1::{extensions_of, ExtensionView};
#[allow(unused_imports)]
use crate::cert::{
    certificate_of, certificate_parts_of, extension_list, same_identity, tbs_fields_of,
    with_identifier, CertificateView,
};

verus! {

/// A certificate holds what its parts and its TBSCertificate hold, each under its own
/// name.
pub proof fn law_certificate_fields(der: Seq<u8>)
    ensures
        certificate_of(der) matches Some(c) ==> {
            &&& certificate_parts_of(der) matches Some(parts)
            &&& tbs_fields_of(parts.tbs) matches Some(tbs)
            &&& c.der == parts.der
            &&& c.tbs == parts.tbs
            &&& c.signature_algorithm == parts.signature_algorithm
            &&& c.tbs_signature_algorithm == parts.tbs_signature_algorithm
            &&& c.signature == parts.signature
            &&& c.serial_number == tbs.serial_number
            &&& c.serial_der == tbs.serial_der
            &&& c.issuer == tbs.issuer
            &&& c.subject == tbs.subject
            &&& c.spki == tbs.spki
            &&& c.public_key == tbs.public_key
            &&& c.not_before == tbs.not_before
            &&& c.not_after == tbs.not_after
            &&& c.extensions is Some <==> tbs.extensions is Some
            &&& tbs.extensions matches Some(list) ==> c.extensions == extensions_of(list)
        },
        certificate_of(der) is None <==> (certificate_parts_of(der) matches Some(parts) ==> (
        tbs_fields_of(parts.tbs) matches Some(tbs) ==> (tbs.extensions matches Some(list)
            && extensions_of(list) is None))),
{
}

/// The extensions under an identifier are those of the list that have it.
pub proof fn law_extensions_with_identifier(list: Seq<ExtensionView>, oid: Seq<u8>)
    ensures
        forall|k: int|
            0 <= k < with_identifier(list, oid).len() ==> list.contains(
                #[trigger] with_identifier(list, oid)[k],
            ) && with_identifier(list, oid)[k].extn_id == oid,
        forall|i: int|
            0 <= i < list.len() && (#[trigger] list[i]).extn_id == oid ==> with_identifier(
                list,
                oid,
            ).contains(list[i]),
        forall|i: int, j: int|
            0 <= i < j < list.len() && (#[trigger] list[i]).extn_id == oid && (
            #[trigger] list[j]).extn_id == oid ==> with_identifier(list, oid).len() >= 2,
    decreases list.len(),
{
    if list.len() > 0 {
        let front = list.drop_last();
        let found = with_identifier(front, oid);
        let all = with_identifier(list, oid);
        law_extensions_with_identifier(front, oid);
        assert forall|k: int| 0 <= k < all.len() implies list.contains(#[trigger] all[k])
            && all[k].extn_id == oid by {
            if k < found.len() {
                assert(all[k] == found[k]);
                let w = choose|w: int| 0 <= w < front.len() && front[w] == found[k];
                assert(list[w] == all[k]);
            } else {
                assert(list[list.len() - 1] == all[k]);
            }
        }
        assert forall|i: int| 0 <= i < list.len() && (#[trigger] list[i]).extn_id == oid implies all.contains(
            list[i],
        ) by {
            if i < front.len() {
                assert(front[i] == list[i]);
                let w = choose|w: int| 0 <= w < found.len() && found[w] == list[i];
                assert(all[w] == list[i]);
            } else {
                assert(all[all.len() - 1] == list[i]);
            }
        }
        assert forall|i: int, j: int|
            0 <= i < j < list.len() && (#[trigger] list[i]).extn_id == oid && (
            #[trigger] list[j]).extn_id == oid implies all.len() >= 2 by {
            assert(front[i] == list[i]);
            assert(found.contains(list[i]));
            if j < front.len() {
                assert(front[j] == list[j]);
            }
        }
    }
}

/// A certificate has no extension under an identifier.
pub open spec fn lacks_extension(cert: CertificateView, oid: Seq<u8>) -> bool {
    forall|i: int|
        0 <= i < extension_list(cert).len() ==> (#[trigger] extension_list(cert)[i]).extn_id != oid
}

/// A certificate has exactly one extension under an identifier, with the given
/// criticality and value.
pub open spec fn has_single_extension(
    cert: CertificateView,
    oid: Seq<u8>,
    critical: bool,
    value: Seq<u8>,
) -> bool {
    exists|i: int|
        0 <= i < extension_list(cert).len() && #[trigger] extension_list(cert)[i] == (ExtensionView {
            extn_id: oid,
            critical,
            extn_value: value,
        }) && forall|j: int|
            0 <= j < extension_list(cert).len() && j != i ==> (
            #[trigger] extension_list(cert)[j]).extn_id != oid
}

/// Nothing is found under an identifier that no extension has; and of a single
/// extension, that extension alone.
pub proof fn law_single_extension(
    cert: CertificateView,
    oid: Seq<u8>,
    critical: bool,
    value: Seq<u8>,
)
    ensures
        with_identifier(extension_list(cert), oid).len() == 0 <==> lacks_extension(cert, oid),
        with_identifier(extension_list(cert), oid) == seq![
            ExtensionView { extn_id: oid, critical, extn_value: value },
        ] <==> has_single_extension(cert, oid, critical, value),
{
    let list = extension_list(cert);
    let found = with_identifier(list, oid);
    let e = ExtensionView { extn_id: oid, critical, extn_value: value };
    law_extensions_with_identifier(list, oid);
    if lacks_extension(cert, oid) && found.len() > 0 {
        let w = choose|w: int| 0 <= w < list.len() && list[w] == found[0];
        assert(list[w].extn_id != oid);
    }
    if found.len() == 0 {
        assert forall|i: int| 0 <= i < list.len() implies (#[trigger] list[i]).extn_id != oid by {
            if list[i].extn_id == oid {
                assert(found.contains(list[i]));
            }
        }
    }
    if found == seq![e] {
        assert(found[0] == e);
        let i = choose|i: int| 0 <= i < list.len() && list[i] == found[0];
        assert forall|j: int| 0 <= j < list.len() && j != i implies (#[trigger] list[j]).extn_id
            != oid by {
            if list[j].extn_id == oid {
                if i < j {
                    assert(list[i].extn_id == oid && list[j].extn_id == oid);
                } else {
                    assert(list[j].extn_id == oid && list[i].extn_id == oid);
                }
            }
        }
        assert(list[i] == e);
    }
    if has_single_extension(cert, oid, critical, value) {
        let i = choose|i: int|
            0 <= i < list.len() && #[trigger] list[i] == e && forall|j: int|
                0 <= j < list.len() && j != i ==> (#[trigger] list[j]).extn_id != oid;
        lemma_single(list, oid, i);
    }
}

proof fn lemma_single(list: Seq<ExtensionView>, oid: Seq<u8>, i: int)
    requires
        0 <= i < list.len(),
        list[i].extn_id == oid,
        forall|j: int| 0 <= j < list.len() && j != i ==> (#[trigger] list[j]).extn_id != oid,
    ensures
        with_identifier(list, oid) == seq![list[i]],
    decreases list.len(),
{
    let front = list.drop_last();
    if i == list.len() - 1 {
        law_extensions_with_identifier(front, oid);
        let found = with_identifier(front, oid);
        if found.len() > 0 {
            let w = choose|w: int| 0 <= w < front.len() && front[w] == found[0];
            assert(list[w] == front[w]);
        }
        assert(with_identifier(list, oid) =~= seq![list[i]]);
    } else {
        assert(list[list.len() - 1].extn_id != oid);
        assert forall|j: int| 0 <= j < front.len() && j != i implies (#[trigger] front[j]).extn_id
            != oid by {
            assert(front[j] == list[j]);
        }
        lemma_single(front, oid, i);
    }
}

/// Two certificates are of one identity exactly where both the subject and the key
/// are the same.
pub proof fn law_same_identity(a: CertificateView, b: CertificateView)
    ensures
        same_identity(a, b) <==> a.subject == b.subject && a.spki == b.spki,
{
}

} // verus!
