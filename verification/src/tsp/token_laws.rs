//! What a verified timestamp token means in terms of what it holds.

use vstd::prelude::*;

#[allow(unused_imports)]
use crate::agrees;
#[allow(unused_imports)]
use crate::asn1::laws::{
    flag_element, law_algorithm_id_read_back, law_basic_constraints_read_back,
    law_extended_key_usage_read_back, lemma_elements, lemma_short, purposes_bytes,
};
#[allow(unused_imports)]
use crate::asn1::{
    algorithm_id_of, basic_constraints_of, bit_string, canonical_contents, date_from_1970,
    extended_key_usage_of, general_name_of, general_names_of, int_canonical, known_tag,
    nonzero_padding, oid_text, oid_valid, whole_arcs, AlgorithmIdView, GeneralNameView,
};
#[allow(unused_imports)]
use crate::cert::laws::{
    has_single_extension, lacks_extension, law_extensions_with_identifier, law_single_extension,
};
#[allow(unused_imports)]
use crate::cert::{
    certificate_of, extension_list, with_identifier, CertificateView, ID_CE_BASIC_CONSTRAINTS,
    ID_CE_EXT_KEY_USAGE, ID_CE_KEY_USAGE, ID_CE_SUBJECT_ALT_NAME, ID_CE_SUBJECT_KEY_IDENTIFIER,
};
#[allow(unused_imports)]
use crate::crypto::algorithm::{
    digest_oid, digest_size, hash_of, hash_size, law_digest_oid, DigestAlgorithm, HashAlgorithm,
};
#[allow(unused_imports)]
use crate::crypto::laws::{
    backend_accepts, law_accepted_signature, law_ed25519_signature, law_pss_signature,
    law_rsa_signature, pss_parameters_bytes,
};
#[allow(unused_imports)]
use crate::crypto::verify::{
    certificate_signature, ed25519_verdict, pss_verdict, rsa_verdict, signature_by_oid,
    SignatureHash, OID_ECDSA_SHA256, OID_ECDSA_SHA384, OID_ECDSA_SHA512, OID_ED25519,
    OID_EC_PUBLIC_KEY, OID_RSASSA_PSS, OID_RSA_ENCRYPTION, OID_RSA_SHA256, OID_RSA_SHA384,
    OID_RSA_SHA512,
};
#[allow(unused_imports)]
use crate::der_utils::{tlv, tlv_bytes};
#[allow(unused_imports)]
use crate::error::{TrustError, TspError};
#[allow(unused_imports)]
use crate::time::laws::{law_date_is_written, law_date_read_back, written};
#[allow(unused_imports)]
use crate::time::{is_digit, CivilTime};
#[allow(unused_imports)]
use crate::trust::{PathQueryView, TrustQuery, TrustQueryView, TrustStore};
#[allow(unused_imports)]
use crate::tsp::chain::{
    first_follower, grown_chain, law_chain_links, lemma_next_index_unique, may_follow, next_index,
    verifies_last, MAX_CHAIN_STEPS,
};
#[allow(unused_imports)]
use crate::tsp::cms::{
    attributes_of, content_info_of, signed_data_of, signer_info_of, single_value, AttributeView,
    ContentPartsView, SignedPartsView, SignerIdView, SignerPartsView,
};
#[allow(unused_imports)]
use crate::tsp::ess::{
    binding_matches, ess_binding, ess_bindings, ess_certificate_id, ess_hash_algorithm,
    ess_issuer_serial, EssBindingView, ID_SIGNING_CERTIFICATE, ID_SIGNING_CERTIFICATE_V2,
};
#[allow(unused_imports)]
use crate::tsp::field::tst_field;
#[allow(unused_imports)]
use crate::tsp::laws::{
    has_single_value, law_attributes_of_a_type, law_single_value, lemma_field_is_written,
    lemma_written,
};
#[allow(unused_imports)]
use crate::tsp::signer::{
    gen_time, gen_time_within, not_ca, same_ignoring_case, same_name, signer_id_matches,
    signing_key_usage, timestamping_eku, tsa_among_fields, tsa_identity, tsa_name_matches,
    ID_KP_TIME_STAMPING,
};
#[allow(unused_imports)]
use crate::tsp::tst_info::{tst_info, TstInfo, TstInfoView, DER_NULL};
#[allow(unused_imports)]
use crate::tsp::verify::{
    accepted_token, after_path_verdict, all_bindings_match, attested_info, certificate_pool,
    cms_signature, combined_digest, decoded_certificates, has_der, law_verified_token, opened_token,
    resolved_algorithm, signed_content, signer_profile, signing_certificate, timestamp_path,
    token_checked, token_signature, token_signer, tst_info_matches, tst_policy, unsigned_attributes,
    verified_token, with_extra, OpenedTokenView, ID_CT_TST_INFO, ID_SIGNED_DATA,
};

verus! {

/// The issuer and the serial number of a certificate as a binding writes them.
pub open spec fn issuer_serial_bytes(names: Seq<u8>, serial: Seq<u8>) -> Seq<u8> {
    tlv_bytes(0x30, tlv_bytes(0x30, names) + tlv_bytes(0x02, serial))
}

/// `names` are the names of one issuer, which is a directory name.
pub open spec fn names_one_issuer(names: Seq<u8>, issuer: Seq<u8>) -> bool {
    general_names_of(tlv_bytes(0x30, names)) matches Some(list) && list.len() == 1
        && general_name_of(list[0]) == Some(GeneralNameView::Directory(issuer))
}

/// A signing-certificate attribute with one certificate identifier.
pub open spec fn signing_certificate_bytes(id: Seq<u8>) -> Seq<u8> {
    tlv_bytes(0x30, tlv_bytes(0x30, tlv_bytes(0x30, id)))
}

proof fn lemma_issuer_serial(names: Seq<u8>, issuer: Seq<u8>, serial: Seq<u8>)
    requires
        names.len() <= 0x10_0000,
        names_one_issuer(names, issuer),
        int_canonical(serial) && serial.len() <= 21,
    ensures
        ess_issuer_serial(issuer_serial_bytes(names, serial)) == Ok::<
            Option<(Seq<u8>, Seq<u8>)>,
            TspError,
        >(Some((issuer, serial))),
        issuer_serial_bytes(names, serial).len() <= 0x20_0000,
{
    lemma_written();
    lemma_short();
}

proof fn lemma_wrapped_id(id: Seq<u8>, v2: bool)
    requires
        id.len() <= 0x40_0000,
    ensures
        ess_binding(signing_certificate_bytes(id), v2) == ess_certificate_id(id, v2),
{
    lemma_written();
    lemma_short();
}

/// A binding of the first version says that the SHA-1 hash of the certificate is the
/// one written, and that its issuer and serial number are those written.
pub proof fn law_binding_read_back(
    hash: Seq<u8>,
    names: Seq<u8>,
    issuer: Seq<u8>,
    serial: Seq<u8>,
)
    requires
        hash.len() == 20,
        names.len() <= 0x10_0000,
        names_one_issuer(names, issuer),
        int_canonical(serial) && serial.len() <= 21,
    ensures
        ess_binding(signing_certificate_bytes(tlv_bytes(0x04, hash)), false) == Ok::<
            EssBindingView,
            TspError,
        >(EssBindingView { digest: HashAlgorithm::Sha1, hash, issuer_serial: None }),
        ess_binding(
            signing_certificate_bytes(tlv_bytes(0x04, hash) + issuer_serial_bytes(names, serial)),
            false,
        ) == Ok::<EssBindingView, TspError>(
            EssBindingView {
                digest: HashAlgorithm::Sha1,
                hash,
                issuer_serial: Some((issuer, serial)),
            },
        ),
{
    lemma_written();
    lemma_short();
    lemma_issuer_serial(names, issuer, serial);
    lemma_wrapped_id(tlv_bytes(0x04, hash), false);
    lemma_wrapped_id(tlv_bytes(0x04, hash) + issuer_serial_bytes(names, serial), false);
}

proof fn lemma_hash_written(alg: DigestAlgorithm, rest: Seq<u8>)
    ensures
        ess_hash_algorithm(tlv_bytes(0x30, tlv_bytes(0x06, digest_oid(alg))) + rest, true) == Ok::<
            (HashAlgorithm, Seq<u8>),
            TspError,
        >((HashAlgorithm::Digest(alg), rest)),
        tlv_bytes(0x30, tlv_bytes(0x06, digest_oid(alg))).len() <= 60,
{
    lemma_written();
    lemma_short();
    law_digest_oid(alg, digest_oid(alg));
    assert(oid_valid(digest_oid(alg)) && digest_oid(alg).len() <= 39) by {
        reveal(oid_valid);
        reveal_with_fuel(whole_arcs, 10);
    }
    law_algorithm_id_read_back(digest_oid(alg), 0x05, Seq::empty());
}

/// A binding of the second version says that the hash of the certificate under the
/// named algorithm, SHA-256 where none is named, is the one written, and that its
/// issuer and serial number are those written.
pub proof fn law_binding_v2_read_back(
    alg: DigestAlgorithm,
    hash: Seq<u8>,
    names: Seq<u8>,
    issuer: Seq<u8>,
    serial: Seq<u8>,
)
    requires
        hash.len() == digest_size(alg),
        names.len() <= 0x10_0000,
        names_one_issuer(names, issuer),
        int_canonical(serial) && serial.len() <= 21,
    ensures
        ({
            let identifier = tlv_bytes(0x30, tlv_bytes(0x06, digest_oid(alg)));
            let written = tlv_bytes(0x04, hash) + issuer_serial_bytes(names, serial);
            &&& ess_binding(signing_certificate_bytes(identifier + written), true) == Ok::<
                EssBindingView,
                TspError,
            >(
                EssBindingView {
                    digest: HashAlgorithm::Digest(alg),
                    hash,
                    issuer_serial: Some((issuer, serial)),
                },
            )
            &&& alg is Sha256 ==> ess_binding(signing_certificate_bytes(written), true) == Ok::<
                EssBindingView,
                TspError,
            >(
                EssBindingView {
                    digest: HashAlgorithm::Digest(DigestAlgorithm::Sha256),
                    hash,
                    issuer_serial: Some((issuer, serial)),
                },
            )
        }),
{
    let identifier = tlv_bytes(0x30, tlv_bytes(0x06, digest_oid(alg)));
    let written = tlv_bytes(0x04, hash) + issuer_serial_bytes(names, serial);
    assert(hash.len() <= 64);
    lemma_hash_written(alg, written);
    lemma_written();
    lemma_short();
    lemma_issuer_serial(names, issuer, serial);
    lemma_wrapped_id(identifier + written, true);
    lemma_wrapped_id(written, true);
}

/// A binding identifies a certificate exactly where the hash of the certificate is
/// the bound one and, where the binding names them, the issuer and the serial number
/// are those of the certificate.
pub proof fn law_binding_identifies(binding: EssBindingView, cert: CertificateView)
    ensures
        binding_matches(binding, cert) == Ok::<bool, TspError>(true) <==> {
            &&& hash_of(binding.digest, cert.der) == Some(binding.hash)
            &&& binding.issuer_serial matches Some((issuer, serial)) ==> issuer == cert.issuer
                && serial == cert.serial_number
        },
{
}

/// The bindings of signed attributes are those of both versions: every one that is
/// there counts, and there must be one.
pub proof fn law_every_binding_counts(
    attrs: Seq<AttributeView>,
    v1: Option<Seq<u8>>,
    v2: Option<Seq<u8>>,
)
    requires
        v1 matches Some(v) ==> has_single_value(attrs, ID_SIGNING_CERTIFICATE@, v),
        v1 is None ==> forall|i: int|
            0 <= i < attrs.len() ==> (#[trigger] attrs[i]).oid != ID_SIGNING_CERTIFICATE@,
        v2 matches Some(v) ==> has_single_value(attrs, ID_SIGNING_CERTIFICATE_V2@, v),
        v2 is None ==> forall|i: int|
            0 <= i < attrs.len() ==> (#[trigger] attrs[i]).oid != ID_SIGNING_CERTIFICATE_V2@,
    ensures
        ess_bindings(attrs) is Ok <==> {
            &&& v1 is Some || v2 is Some
            &&& v1 matches Some(v) ==> ess_binding(v, false) is Ok
            &&& v2 matches Some(v) ==> ess_binding(v, true) is Ok
        },
        ess_bindings(attrs) matches Ok(bindings) ==> {
            &&& bindings.len() == (if v1 is Some { 1int } else { 0 }) + (if v2 is Some { 1int }
            else { 0 })
            &&& v1 matches Some(v) ==> bindings.contains(ess_binding(v, false)->Ok_0)
            &&& v2 matches Some(v) ==> bindings.contains(ess_binding(v, true)->Ok_0)
        },
{
    law_single_value(attrs, ID_SIGNING_CERTIFICATE@, v1->0);
    law_single_value(attrs, ID_SIGNING_CERTIFICATE_V2@, v2->0);
    if ess_bindings(attrs) is Ok {
        let bindings = ess_bindings(attrs)->Ok_0;
        if v1 is Some {
            assert(bindings[0] == ess_binding(v1->0, false)->Ok_0);
        }
        if v2 is Some {
            assert(bindings[bindings.len() - 1] == ess_binding(v2->0, true)->Ok_0);
        }
    }
}

proof fn lemma_decoded(list: Seq<Option<Seq<u8>>>, i: nat, found: Seq<CertificateView>)
    requires
        i <= list.len(),
    ensures
        decoded_certificates(list, i, found) is None <==> exists|k: int|
            i <= k < list.len() && (#[trigger] list[k] matches Some(der) && certificate_of(der)
                is None),
        decoded_certificates(list, i, found) matches Some(all) ==> {
            &&& all.len() >= found.len()
            &&& forall|c: CertificateView|
                #[trigger] all.contains(c) <==> found.contains(c) || exists|k: int|
                    i <= k < list.len() && (#[trigger] list[k] matches Some(der)
                        && certificate_of(der) == Some(c))
        },
    decreases list.len() - i,
{
    if i < list.len() {
        match list[i as int] {
            None => {
                lemma_decoded(list, i + 1, found);
            },
            Some(der) => {
                if certificate_of(der) is Some {
                    let c = certificate_of(der)->0;
                    let more = found.push(c);
                    lemma_decoded(list, i + 1, more);
                    if decoded_certificates(list, i, found) is Some {
                        let all = decoded_certificates(list, i, found)->0;
                        assert forall|x: CertificateView|
                            #[trigger] all.contains(x) implies found.contains(x) || exists|k: int|
                            i <= k < list.len() && (#[trigger] list[k] matches Some(d)
                                && certificate_of(d) == Some(x)) by {
                            if more.contains(x) {
                                let w = choose|w: int| 0 <= w < more.len() && more[w] == x;
                                if w < found.len() {
                                    assert(found[w] == x);
                                } else {
                                    assert(list[i as int] == Some(der));
                                }
                            }
                        }
                        assert forall|x: CertificateView|
                            found.contains(x) || (exists|k: int|
                                i <= k < list.len() && (#[trigger] list[k] matches Some(d)
                                    && certificate_of(d) == Some(x))) implies #[trigger] all.contains(
                            x,
                        ) by {
                            if found.contains(x) {
                                let w = choose|w: int| 0 <= w < found.len() && found[w] == x;
                                assert(more[w] == x);
                            } else {
                                assert(more[found.len() as int] == c);
                            }
                        }
                    }
                } else {
                    assert(list[i as int] == Some(der));
                }
            },
        }
    }
}

proof fn lemma_with_extra(pool: Seq<CertificateView>, extra: Seq<CertificateView>, i: nat)
    requires
        i <= extra.len(),
    ensures
        with_extra(pool, extra, i).len() >= pool.len(),
        with_extra(pool, extra, i).take(pool.len() as int) == pool,
        forall|c: CertificateView|
            #[trigger] with_extra(pool, extra, i).contains(c) ==> pool.contains(c)
                || extra.contains(c),
        forall|k: int|
            i <= k < extra.len() ==> has_der(
                with_extra(pool, extra, i),
                (#[trigger] extra[k]).der,
            ),
    decreases extra.len() - i,
{
    let all = with_extra(pool, extra, i);
    if i >= extra.len() {
        assert(all.take(pool.len() as int) =~= pool);
    } else if has_der(pool, extra[i as int].der) {
        lemma_with_extra(pool, extra, i + 1);
        let w = choose|w: int| 0 <= w < pool.len() && (#[trigger] pool[w]).der == extra[i as int].der;
        assert(all.take(pool.len() as int)[w] == pool[w]);
        assert(all[w].der == extra[i as int].der);
    } else {
        let more = pool.push(extra[i as int]);
        lemma_with_extra(more, extra, i + 1);
        assert(all.take(more.len() as int)[pool.len() as int] == extra[i as int]);
        assert(all[pool.len() as int].der == extra[i as int].der);
        assert forall|c: CertificateView| #[trigger] all.contains(c) implies pool.contains(c)
            || extra.contains(c) by {
            if more.contains(c) {
                let w = choose|w: int| 0 <= w < more.len() && more[w] == c;
                if w < pool.len() {
                    assert(pool[w] == c);
                } else {
                    assert(extra[i as int] == c);
                }
            }
        }
        assert(all.take(pool.len() as int) =~= more.take(pool.len() as int)) by {
            assert forall|j: int| 0 <= j < pool.len() implies all[j] == more[j] by {
                assert(all.take(more.len() as int)[j] == more[j]);
            }
        }
        assert(more.take(pool.len() as int) =~= pool);
    }
}

/// The certificates among which the signer is looked for are those of the token and
/// the extra ones, and no others: each of the token is among them, of each extra one
/// the encoding is, and there is one at least.
pub proof fn law_certificate_pool(list: Seq<Option<Seq<u8>>>, extra: Seq<CertificateView>)
    ensures
        certificate_pool(list, extra) is Ok <==> {
            &&& forall|k: int|
                0 <= k < list.len() ==> (#[trigger] list[k] matches Some(der) ==> certificate_of(
                    der,
                ) is Some)
            &&& extra.len() > 0 || exists|k: int|
                0 <= k < list.len() && #[trigger] list[k] is Some
        },
        certificate_pool(list, extra) matches Ok(pool) ==> {
            &&& forall|k: int|
                0 <= k < list.len() ==> (#[trigger] list[k] matches Some(der) ==> (certificate_of(
                    der,
                ) matches Some(c) && pool.contains(c)))
            &&& forall|k: int|
                0 <= k < extra.len() ==> has_der(pool, (#[trigger] extra[k]).der)
            &&& forall|c: CertificateView|
                #[trigger] pool.contains(c) ==> extra.contains(c) || exists|k: int|
                    0 <= k < list.len() && (#[trigger] list[k] matches Some(der) && certificate_of(
                        der,
                    ) == Some(c))
        },
{
    let none = Seq::<CertificateView>::empty();
    lemma_decoded(list, 0, none);
    if decoded_certificates(list, 0, none) is Some {
        let found = decoded_certificates(list, 0, none)->0;
        lemma_with_extra(found, extra, 0);
        let pool = with_extra(found, extra, 0);
        assert forall|c: CertificateView| found.contains(c) implies #[trigger] pool.contains(c) by {
            let w = choose|w: int| 0 <= w < found.len() && found[w] == c;
            assert(pool.take(found.len() as int)[w] == c);
            assert(pool[w] == c);
        }
        if extra.len() > 0 {
            assert(has_der(pool, extra[0].der));
        }
        assert forall|k: int| 0 <= k < list.len() && #[trigger] list[k] is Some implies pool.len()
            > 0 by {
            let der = list[k]->0;
            assert(certificate_of(der) is Some);
            assert(found.contains(certificate_of(der)->0));
        }
        if pool.len() > 0 && extra.len() == 0 {
            assert(pool.contains(pool[0]));
            assert(!extra.contains(pool[0]));
            assert(found.contains(pool[0]));
            let k = choose|k: int|
                0 <= k < list.len() && (#[trigger] list[k] matches Some(der) && certificate_of(
                    der,
                ) == Some(pool[0]));
            assert(list[k] is Some);
        }
    }
}

proof fn lemma_all_match(bindings: Seq<EssBindingView>, cert: CertificateView, k: nat)
    requires
        forall|j: int|
            k <= j < bindings.len() ==> binding_matches(#[trigger] bindings[j], cert) == Ok::<
                bool,
                TspError,
            >(true),
    ensures
        all_bindings_match(bindings, cert, k) == Ok::<bool, TspError>(true),
    decreases bindings.len() - k,
{
    if k < bindings.len() {
        assert(binding_matches(bindings[k as int], cert) == Ok::<bool, TspError>(true));
        lemma_all_match(bindings, cert, k + 1);
    }
}

proof fn lemma_each_matches(bindings: Seq<EssBindingView>, cert: CertificateView, k: nat)
    requires
        all_bindings_match(bindings, cert, k) == Ok::<bool, TspError>(true),
    ensures
        forall|j: int|
            k <= j < bindings.len() ==> binding_matches(#[trigger] bindings[j], cert) == Ok::<
                bool,
                TspError,
            >(true),
    decreases bindings.len() - k,
{
    if k < bindings.len() {
        lemma_each_matches(bindings, cert, k + 1);
    }
}

/// The certificate is the one that the signer identifier and every binding name.
pub open spec fn is_named(
    sid: SignerIdView,
    bindings: Seq<EssBindingView>,
    cert: CertificateView,
) -> bool {
    signer_id_matches(sid, cert) && forall|j: int|
        0 <= j < bindings.len() ==> binding_matches(#[trigger] bindings[j], cert) == Ok::<
            bool,
            TspError,
        >(true)
}

/// The signer that is found is a certificate that is named.
pub proof fn law_signer_is_named(
    pool: Seq<CertificateView>,
    sid: SignerIdView,
    bindings: Seq<EssBindingView>,
    i: nat,
)
    ensures
        signing_certificate(pool, sid, bindings, i) matches Ok(signer) ==> pool.contains(signer)
            && is_named(sid, bindings, signer),
    decreases pool.len() - i,
{
    if i < pool.len() {
        law_signer_is_named(pool, sid, bindings, i + 1);
        if signer_id_matches(sid, pool[i as int]) && all_bindings_match(bindings, pool[i as int], 0)
            == Ok::<bool, TspError>(true) {
            lemma_each_matches(bindings, pool[i as int], 0);
            assert(pool.contains(pool[i as int]));
        }
    }
}

/// The first certificate that the signer identifier names is found, where every
/// binding names it too.
pub proof fn law_signer_is_found(
    pool: Seq<CertificateView>,
    sid: SignerIdView,
    bindings: Seq<EssBindingView>,
    i: nat,
    at: int,
)
    requires
        i <= at < pool.len(),
        is_named(sid, bindings, pool[at]),
        forall|k: int| i <= k < at ==> !signer_id_matches(sid, #[trigger] pool[k]),
    ensures
        signing_certificate(pool, sid, bindings, i) == Ok::<CertificateView, TspError>(pool[at]),
    decreases pool.len() - i,
{
    if i < at {
        assert(!signer_id_matches(sid, pool[i as int]));
        law_signer_is_found(pool, sid, bindings, i + 1, at);
    } else {
        lemma_all_match(bindings, pool[at], 0);
    }
}

/// A signer identifier names a certificate by its issuer and serial number, both of
/// them, or by its key identifier.
pub proof fn law_signer_identifier(
    cert: CertificateView,
    issuer: Seq<u8>,
    serial: Seq<u8>,
    id: Seq<u8>,
    own_id: Seq<u8>,
    critical: bool,
)
    requires
        own_id.len() <= 0x100_0000,
    ensures
        signer_id_matches(SignerIdView::IssuerAndSerial(issuer, serial), cert) <==> cert.issuer
            == issuer && cert.serial_number == serial,
        has_single_extension(
            cert,
            ID_CE_SUBJECT_KEY_IDENTIFIER@,
            critical,
            tlv_bytes(0x04, own_id),
        ) ==> (signer_id_matches(SignerIdView::KeyId(id), cert) <==> own_id == id),
        lacks_extension(cert, ID_CE_SUBJECT_KEY_IDENTIFIER@) ==> !signer_id_matches(
            SignerIdView::KeyId(id),
            cert,
        ),
{
    lemma_elements();
    law_single_extension(
        cert,
        ID_CE_SUBJECT_KEY_IDENTIFIER@,
        critical,
        tlv_bytes(0x04, own_id),
    );
}

/// A certificate may sign timestamps for its purpose exactly where its only extended
/// key usage is critical and names timestamping alone.
pub proof fn law_timestamping_purpose(
    cert: CertificateView,
    critical: bool,
    purposes: Seq<Seq<u8>>,
)
    requires
        forall|i: int| 0 <= i < purposes.len() ==> oid_valid(#[trigger] purposes[i]),
        purposes_bytes(purposes).len() <= 0x100_0000,
    ensures
        has_single_extension(
            cert,
            ID_CE_EXT_KEY_USAGE@,
            critical,
            tlv_bytes(0x30, purposes_bytes(purposes)),
        ) ==> (timestamping_eku(cert) is Ok <==> critical && purposes == seq![
            ID_KP_TIME_STAMPING@,
        ]),
        lacks_extension(cert, ID_CE_EXT_KEY_USAGE@) ==> timestamping_eku(cert) is Err,
{
    law_extended_key_usage_read_back(purposes);
    law_single_extension(
        cert,
        ID_CE_EXT_KEY_USAGE@,
        critical,
        tlv_bytes(0x30, purposes_bytes(purposes)),
    );
}

/// A certificate that passes for the purpose of timestamping has exactly one extended
/// key usage, which is critical.
pub proof fn law_timestamping_purpose_is_critical(cert: CertificateView)
    requires
        timestamping_eku(cert) is Ok,
    ensures
        exists|value: Seq<u8>|
            has_single_extension(cert, ID_CE_EXT_KEY_USAGE@, true, value)
                && #[trigger] extended_key_usage_of(value) == Some(seq![ID_KP_TIME_STAMPING@]),
{
    let found = with_identifier(extension_list(cert), ID_CE_EXT_KEY_USAGE@);
    law_extensions_with_identifier(extension_list(cert), ID_CE_EXT_KEY_USAGE@);
    let value = found[0].extn_value;
    assert(found =~= seq![found[0]]);
    assert(found[0].extn_id == ID_CE_EXT_KEY_USAGE@);
    law_single_extension(cert, ID_CE_EXT_KEY_USAGE@, true, value);
    assert(extended_key_usage_of(value) == Some(seq![ID_KP_TIME_STAMPING@]));
}

/// A certificate authority is refused as the signer of a timestamp; a certificate
/// that is none, or says nothing of it, is not.
pub proof fn law_signer_is_no_authority(cert: CertificateView, critical: bool, ca: bool)
    ensures
        has_single_extension(
            cert,
            ID_CE_BASIC_CONSTRAINTS@,
            critical,
            tlv_bytes(0x30, flag_element(ca)),
        ) ==> (not_ca(cert) is Ok <==> !ca),
        lacks_extension(cert, ID_CE_BASIC_CONSTRAINTS@) ==> not_ca(cert) is Ok,
{
    law_basic_constraints_read_back(ca);
    law_single_extension(
        cert,
        ID_CE_BASIC_CONSTRAINTS@,
        critical,
        tlv_bytes(0x30, flag_element(ca)),
    );
}

/// A key usage permits the signature of a timestamp exactly where one of its first
/// two bits is set, those of digital signature and non-repudiation; a certificate
/// without a key usage permits it.
pub proof fn law_signer_key_usage(cert: CertificateView, critical: bool, octet: u8)
    ensures
        has_single_extension(
            cert,
            ID_CE_KEY_USAGE@,
            critical,
            tlv_bytes(0x03, seq![0u8, octet]),
        ) ==> (signing_key_usage(cert) is Ok <==> octet / 0x40 % 4 != 0),
        lacks_extension(cert, ID_CE_KEY_USAGE@) ==> signing_key_usage(cert) is Ok,
{
    lemma_elements();
    lemma_short();
    assert(seq![0u8, octet].skip(1) =~= seq![octet]);
    law_single_extension(
        cert,
        ID_CE_KEY_USAGE@,
        critical,
        tlv_bytes(0x03, seq![0u8, octet]),
    );
}

/// A certificate with two extensions of one kind is no signer of a timestamp.
pub proof fn law_signer_extensions_are_single(cert: CertificateView, i: int, j: int)
    requires
        0 <= i < j < extension_list(cert).len(),
        extension_list(cert)[i].extn_id == extension_list(cert)[j].extn_id,
    ensures
        extension_list(cert)[i].extn_id == ID_CE_EXT_KEY_USAGE@ ==> timestamping_eku(cert) is Err,
        extension_list(cert)[i].extn_id == ID_CE_BASIC_CONSTRAINTS@ ==> not_ca(cert) is Err,
        extension_list(cert)[i].extn_id == ID_CE_KEY_USAGE@ ==> signing_key_usage(cert) is Err,
{
    law_extensions_with_identifier(extension_list(cert), extension_list(cert)[i].extn_id);
}

/// The hash of the signature backend that a digest algorithm is.
pub open spec fn is_signature_hash(digest: DigestAlgorithm, hash: SignatureHash) -> bool {
    match hash {
        SignatureHash::Sha256 => digest is Sha256,
        SignatureHash::Sha384 => digest is Sha384,
        SignatureHash::Sha512 => digest is Sha512,
        _ => false,
    }
}

proof fn lemma_distinct_oids()
    ensures
        OID_RSA_ENCRYPTION@[8] == 0x01 && OID_RSASSA_PSS@[8] == 0x0A && OID_RSA_SHA256@[8] == 0x0B
            && OID_RSA_SHA384@[8] == 0x0C && OID_RSA_SHA512@[8] == 0x0D,
        OID_EC_PUBLIC_KEY@.len() == 7 && OID_ED25519@.len() == 3,
        OID_ECDSA_SHA256@[7] == 2 && OID_ECDSA_SHA384@[7] == 3 && OID_ECDSA_SHA512@[7] == 4,
{
}

/// An RSA signature over signed attributes, under the bare key type or under the
/// identifier that combines it with the declared hash, is accepted exactly where the
/// backend finds that the key signed the attributes with that hash.
pub proof fn law_rsa_attributes(
    attrs: Seq<u8>,
    signature: Seq<u8>,
    spki: Seq<u8>,
    algorithm: AlgorithmIdView,
    digest: DigestAlgorithm,
    hash: SignatureHash,
)
    requires
        is_signature_hash(digest, hash),
        algorithm.oid == OID_RSA_ENCRYPTION@ || algorithm.oid == (match digest {
            DigestAlgorithm::Sha256 => OID_RSA_SHA256@,
            DigestAlgorithm::Sha384 => OID_RSA_SHA384@,
            _ => OID_RSA_SHA512@,
        }),
    ensures
        cms_signature(attrs, signature, spki, algorithm, digest) is Ok <==> rsa_verdict(
            hash,
            spki,
            attrs,
            signature,
        ) == Some(true),
{
    lemma_distinct_oids();
    law_rsa_signature(attrs, signature, spki, false);
}

/// An ECDSA signature over signed attributes, under the bare key type or under the
/// identifier that combines it with the declared hash, is accepted exactly where the
/// signature under that combined identifier is.
pub proof fn law_ecdsa_attributes(
    attrs: Seq<u8>,
    signature: Seq<u8>,
    spki: Seq<u8>,
    algorithm: AlgorithmIdView,
    digest: DigestAlgorithm,
    combined: Seq<u8>,
)
    requires
        digest is Sha256 && combined == OID_ECDSA_SHA256@ || digest is Sha384 && combined
            == OID_ECDSA_SHA384@ || digest is Sha512 && combined == OID_ECDSA_SHA512@,
        algorithm.oid == OID_EC_PUBLIC_KEY@ || algorithm.oid == combined,
    ensures
        cms_signature(attrs, signature, spki, algorithm, digest) is Ok <==> signature_by_oid(
            attrs,
            signature,
            spki,
            combined,
            false,
        ) is Ok,
{
    lemma_distinct_oids();
}

/// An Ed25519 signature over signed attributes is accepted exactly where the backend
/// finds that the key signed the attributes.
pub proof fn law_ed25519_attributes(
    attrs: Seq<u8>,
    signature: Seq<u8>,
    spki: Seq<u8>,
    parameters: Option<Seq<u8>>,
    digest: DigestAlgorithm,
)
    ensures
        cms_signature(
            attrs,
            signature,
            spki,
            AlgorithmIdView { oid: OID_ED25519@, parameters },
            digest,
        ) is Ok <==> ed25519_verdict(spki, attrs, signature) == Some(true),
{
    lemma_distinct_oids();
    law_ed25519_signature(attrs, signature, spki, false);
}

/// A RSASSA-PSS signature over signed attributes is accepted exactly where its hash is
/// the declared one and the backend finds that the key signed the attributes with it.
pub proof fn law_pss_attributes(
    attrs: Seq<u8>,
    signature: Seq<u8>,
    spki: Seq<u8>,
    hash: DigestAlgorithm,
    salt: u32,
    digest: DigestAlgorithm,
)
    ensures
        cms_signature(
            attrs,
            signature,
            spki,
            AlgorithmIdView {
                oid: OID_RSASSA_PSS@,
                parameters: Some(pss_parameters_bytes(hash, hash, Some(salt))),
            },
            digest,
        ) is Ok <==> hash == digest && pss_verdict(hash, salt as usize, spki, attrs, signature)
            == Some(true),
{
    law_pss_signature(attrs, signature, spki, hash, salt);
}

/// A signature under an identifier that fixes another hash than the declared one is
/// refused, and so is one under a bare key type with a hash that has no combined
/// identifier.
pub proof fn law_other_hash_is_refused(
    attrs: Seq<u8>,
    signature: Seq<u8>,
    spki: Seq<u8>,
    algorithm: AlgorithmIdView,
    digest: DigestAlgorithm,
)
    ensures
        cms_signature(attrs, signature, spki, algorithm, digest) is Ok ==> {
            &&& algorithm.oid == OID_RSA_SHA256@ || algorithm.oid == OID_ECDSA_SHA256@ ==> digest
                is Sha256
            &&& algorithm.oid == OID_RSA_SHA384@ || algorithm.oid == OID_ECDSA_SHA384@ ==> digest
                is Sha384
            &&& algorithm.oid == OID_RSA_SHA512@ || algorithm.oid == OID_ECDSA_SHA512@ ==> digest
                is Sha512
            &&& algorithm.oid == OID_RSA_ENCRYPTION@ || algorithm.oid == OID_EC_PUBLIC_KEY@
                ==> digest is Sha256 || digest is Sha384 || digest is Sha512
        },
{
    lemma_distinct_oids();
}

/// In a verified token a backend found that the key of the signer signed the signed
/// attributes, byte for byte.
pub proof fn law_verified_signature(token: Seq<u8>, extra: Seq<CertificateView>)
    requires
        verified_token(token, extra) is Ok,
    ensures
        opened_token(token) matches Ok(opened) && backend_accepts(
            opened.signed_attrs,
            opened.signer.signature,
            verified_token(token, extra)->Ok_0.0.spki,
        ),
{
    law_verified_token(token, extra);
    let opened = opened_token(token)->Ok_0;
    let (signer, _, _) = verified_token(token, extra)->Ok_0;
    let attrs = attributes_of(opened.signed_attrs)->0;
    let digest = signed_content(attrs, opened.signer.digest_oid, opened.content)->Ok_0;
    let algorithm = algorithm_id_of(opened.signer.signature_algorithm)->0;
    let resolved = AlgorithmIdView {
        oid: resolved_algorithm(algorithm.oid, digest),
        parameters: None,
    };
    law_accepted_signature(
        opened.signed_attrs,
        opened.signer.signature,
        signer.spki,
        algorithm,
        false,
    );
    law_accepted_signature(
        opened.signed_attrs,
        opened.signer.signature,
        signer.spki,
        resolved,
        false,
    );
}

/// What a token holds is what is checked: the OCTET STRING that a SignedData over a
/// TSTInfo encapsulates, its certificates, and its only signer with the attributes
/// that it signs.
pub proof fn law_opened_token(
    token: Seq<u8>,
    info: ContentPartsView,
    data: SignedPartsView,
    content: Seq<u8>,
    signer_der: Seq<u8>,
    signer: SignerPartsView,
    attrs: Seq<u8>,
)
    requires
        content_info_of(token) == Some(info),
        info.content_type == ID_SIGNED_DATA@,
        signed_data_of(info.content) == Some(data),
        data.econtent_type == ID_CT_TST_INFO@,
        data.econtent == Some(tlv_bytes(0x04, content)),
        content.len() <= u32::MAX,
        data.signer_infos == seq![signer_der],
        signer_info_of(signer_der) == Some(signer),
        signer.signed_attrs == Some(attrs),
    ensures
        opened_token(token) == Ok::<OpenedTokenView, TspError>(
            OpenedTokenView {
                content,
                certificates: data.certificates,
                signer,
                signed_attrs: attrs,
            },
        ),
{
    reveal(opened_token);
    lemma_elements();
    assert(data.signer_infos[0] == signer_der);
}

/// Only a SignedData over a TSTInfo with one signer, who signs attributes, is opened,
/// and what is opened is what it holds.
pub proof fn law_opened_token_holds(token: Seq<u8>)
    ensures
        opened_token(token) matches Ok(opened) ==> {
            &&& content_info_of(token) matches Some(info)
            &&& info.content_type == ID_SIGNED_DATA@
            &&& signed_data_of(info.content) matches Some(data)
            &&& data.econtent_type == ID_CT_TST_INFO@
            &&& data.econtent matches Some(econtent)
            &&& tlv(econtent) matches Ok((tag, content, _))
            &&& tag == 0x04 && content == opened.content
            &&& opened.certificates == data.certificates
            &&& data.signer_infos.len() == 1
            &&& signer_info_of(data.signer_infos[0]) == Some(opened.signer)
            &&& opened.signer.signed_attrs == Some(opened.signed_attrs)
        },
{
    reveal(opened_token);
}

/// A binding outside of the signed attributes is refused.
pub proof fn law_bindings_are_signed(attrs: Option<Seq<u8>>)
    ensures
        unsigned_attributes(attrs) is Ok <==> (attrs matches Some(der) ==> (attributes_of(der)
            matches Some(list) && forall|i: int|
            0 <= i < list.len() ==> (#[trigger] list[i]).oid != ID_SIGNING_CERTIFICATE@
                && list[i].oid != ID_SIGNING_CERTIFICATE_V2@)),
{
    if let Some(der) = attrs {
        if let Some(list) = attributes_of(der) {
            law_single_value(list, ID_SIGNING_CERTIFICATE@, Seq::empty());
            law_single_value(list, ID_SIGNING_CERTIFICATE_V2@, Seq::empty());
            law_attributes_of_a_type(list, ID_SIGNING_CERTIFICATE@);
            law_attributes_of_a_type(list, ID_SIGNING_CERTIFICATE_V2@);
            let ok = forall|i: int|
                0 <= i < list.len() ==> (#[trigger] list[i]).oid != ID_SIGNING_CERTIFICATE@
                    && list[i].oid != ID_SIGNING_CERTIFICATE_V2@;
            if unsigned_attributes(attrs) is Ok {
                assert(single_value(list, ID_SIGNING_CERTIFICATE@) == Ok::<
                    Option<Seq<u8>>,
                    TspError,
                >(None));
                assert(single_value(list, ID_SIGNING_CERTIFICATE_V2@) == Ok::<
                    Option<Seq<u8>>,
                    TspError,
                >(None));
                assert(ok);
            }
            if ok {
                assert(single_value(list, ID_SIGNING_CERTIFICATE@) == Ok::<
                    Option<Seq<u8>>,
                    TspError,
                >(None));
                assert(single_value(list, ID_SIGNING_CERTIFICATE_V2@) == Ok::<
                    Option<Seq<u8>>,
                    TspError,
                >(None));
            }
        }
    }
}

/// Two names are the same where they are equal; names of hosts also where they differ
/// in the case of ASCII letters alone.
pub proof fn law_same_name(a: GeneralNameView, b: GeneralNameView)
    ensures
        a == b ==> same_name(a, b),
        same_name(a, b) && a != b ==> {
            &&& a matches GeneralNameView::Dns(x)
            &&& b matches GeneralNameView::Dns(y)
            &&& x.len() == y.len()
            &&& forall|i: int|
                0 <= i < x.len() ==> {
                    ||| #[trigger] x[i] == y[i]
                    ||| 0x41 <= x[i] <= 0x5A && y[i] == x[i] + 0x20
                    ||| 0x41 <= y[i] <= 0x5A && x[i] == y[i] + 0x20
                }
        },
        forall|x: Seq<u8>, y: Seq<u8>|
            a == GeneralNameView::Dns(x) && b == GeneralNameView::Dns(y) && x.len() == y.len() && (
            forall|i: int|
                0 <= i < x.len() ==> {
                    ||| #[trigger] x[i] == y[i]
                    ||| 0x41 <= x[i] <= 0x5A && y[i] == x[i] + 0x20
                    ||| 0x41 <= y[i] <= 0x5A && x[i] == y[i] + 0x20
                }) ==> #[trigger] same_ignoring_case(x, y) && same_name(a, b),
{
}

/// The name that a TSTInfo gives its authority fits a certificate exactly where it is
/// the subject's, or one of the names of the only subject alternative name.
pub proof fn law_authority_name(field: Seq<u8>, signer: CertificateView)
    ensures
        tsa_name_matches(field, signer) is Ok <==> (general_name_of(field) matches Some(name) && {
            ||| name == GeneralNameView::Directory(signer.subject)
            ||| exists|critical: bool, value: Seq<u8>|
                #[trigger] has_single_extension(
                    signer,
                    ID_CE_SUBJECT_ALT_NAME@,
                    critical,
                    value,
                ) && (general_names_of(value) matches Some(list) && exists|i: int|
                    0 <= i < list.len() && (general_name_of(#[trigger] list[i]) matches Some(g)
                        && same_name(name, g)))
        }),
{
    let found = with_identifier(extension_list(signer), ID_CE_SUBJECT_ALT_NAME@);
    law_extensions_with_identifier(extension_list(signer), ID_CE_SUBJECT_ALT_NAME@);
    assert forall|critical: bool, value: Seq<u8>| #[trigger]
        has_single_extension(signer, ID_CE_SUBJECT_ALT_NAME@, critical, value) implies found.len()
        == 1 && found[0].extn_value == value by {
        law_single_extension(signer, ID_CE_SUBJECT_ALT_NAME@, critical, value);
    }
    if found.len() == 1 {
        assert(found[0].extn_id == ID_CE_SUBJECT_ALT_NAME@);
        assert(found =~= seq![found[0]]);
        law_single_extension(
            signer,
            ID_CE_SUBJECT_ALT_NAME@,
            found[0].critical,
            found[0].extn_value,
        );
        assert(has_single_extension(
            signer,
            ID_CE_SUBJECT_ALT_NAME@,
            found[0].critical,
            found[0].extn_value,
        ));
    }
}

/// The name of the authority is looked for among the fields of a TSTInfo: the first
/// field that may hold it decides, and without one there is nothing to check.
pub proof fn law_authority_field(tag: u8, contents: Seq<u8>, rest: Seq<u8>, signer: CertificateView)
    requires
        known_tag(tag),
        contents.len() <= 0x100_0000,
    ensures
        tsa_among_fields(tlv_bytes(tag, contents) + rest, signer) == (if tag == 0xA0 {
            tsa_name_matches(contents, signer)
        } else {
            tsa_among_fields(rest, signer)
        }),
        tsa_among_fields(Seq::empty(), signer) is Ok,
{
    lemma_written();
    lemma_short();
}

/// The name of the authority is looked for in the fields of the TSTInfo.
pub proof fn law_authority_is_checked(fields: Seq<u8>, signer: CertificateView)
    requires
        fields.len() <= 0x100_0000,
    ensures
        tsa_identity(tlv_bytes(0x30, fields), signer) == tsa_among_fields(fields, signer),
{
    lemma_written();
    lemma_short();
}

/// The time of a token lies within the validity of a certificate exactly where it is
/// not before the start and not after the end, counting a fraction of a second.
pub proof fn law_time_within_validity(signer: CertificateView, gen_time_der: Seq<u8>)
    ensures
        gen_time_within(signer, gen_time_der) is Ok <==> (gen_time(gen_time_der) matches Ok((
            t,
            fraction,
        )) && signer.not_before <= t.epoch_seconds() && (t.epoch_seconds() < signer.not_after || (
        t.epoch_seconds() == signer.not_after && !fraction))),
{
}

/// The time of a token is that of its digits: fourteen and a Z, or with a fraction
/// behind a point that does not end in a zero.
pub proof fn law_token_time(digits: Seq<u8>, fraction: Seq<u8>)
    requires
        digits.len() == 14,
        date_from_1970(digits.push(0x5A)) is Some,
        fraction.len() > 0,
        forall|i: int| 0 <= i < fraction.len() ==> 0x30 <= #[trigger] fraction[i] <= 0x39,
    ensures
        gen_time(digits.push(0x5A)) == Ok::<(CivilTime, bool), TspError>(
            (date_from_1970(digits.push(0x5A))->0, false),
        ),
        fraction.last() != 0x30 ==> gen_time(
            digits + seq![0x2Eu8] + fraction + seq![0x5Au8],
        ) == Ok::<(CivilTime, bool), TspError>((date_from_1970(digits.push(0x5A))->0, true)),
        fraction.last() == 0x30 ==> gen_time(
            digits + seq![0x2Eu8] + fraction + seq![0x5Au8],
        ) is Err,
{
    let whole = digits.push(0x5A);
    let long = digits + seq![0x2Eu8] + fraction + seq![0x5Au8];
    assert(whole.take(14).push(0x5A) =~= whole);
    assert(long.take(14).push(0x5A) =~= whole);
    assert(long.len() == 16 + fraction.len());
    assert(long[long.len() - 2] == fraction.last());
    assert forall|i: int| 15 <= i < long.len() - 1 implies is_digit(#[trigger] long[i]) by {
        assert(long[i] == fraction[i - 15]);
    }
}

/// A token attests what was asked for exactly where its hash and its hash algorithm
/// are those asked for, and its nonce is the one sent, where one was.
pub proof fn law_token_matches(
    info: TstInfoView,
    hash: Seq<u8>,
    nonce: Option<u64>,
    alg: DigestAlgorithm,
)
    ensures
        tst_info_matches(info, hash, nonce, alg) is Ok <==> info.message_hash == hash
            && info.hash_algorithm == alg && (nonce is Some ==> info.nonce == nonce),
{
}

/// The policy of a token is the one asked for exactly where it is written as the
/// identifier asked for is; without one asked for, any policy does.
pub proof fn law_policy_matches(actual: Option<Seq<char>>, expected: Option<Seq<u8>>)
    ensures
        tst_policy(actual, expected) is Ok <==> (expected matches Some(oid) ==> actual == Some(
            oid_text(oid),
        )),
{
}

/// The token of a response is accepted exactly where there is one, it verifies, and it
/// attests the hash, the algorithm, the nonce and the policy that were asked for; and
/// it is handed on unchanged.
pub proof fn law_accepted_response(
    token: Option<Seq<u8>>,
    hash: Seq<u8>,
    nonce: Option<u64>,
    alg: DigestAlgorithm,
    extra: Seq<CertificateView>,
    policy: Option<Seq<u8>>,
)
    ensures
        accepted_token(token, hash, nonce, alg, extra, policy) is Ok <==> (token matches Some(der)
            && (verified_token(der, extra) matches Ok((_, _, info)) && info.message_hash == hash
            && info.hash_algorithm == alg && (nonce is Some ==> info.nonce == nonce) && (policy
            matches Some(oid) ==> info.policy_oid == Some(oid_text(oid))))),
        accepted_token(token, hash, nonce, alg, extra, policy) matches Ok(der) ==> token == Some(
            der,
        ),
{
}

/// A token verifies where each of its checks passes, with the signer that is found,
/// the certificates among which it was, and the TSTInfo that is signed.
#[verifier::rlimit(30)]
pub proof fn law_token_verifies(
    token: Seq<u8>,
    extra: Seq<CertificateView>,
    opened: OpenedTokenView,
    pool: Seq<CertificateView>,
    attrs: Seq<AttributeView>,
    bindings: Seq<EssBindingView>,
    at: int,
    digest: DigestAlgorithm,
    algorithm: AlgorithmIdView,
    info: TstInfoView,
)
    requires
        opened_token(token) == Ok::<OpenedTokenView, TspError>(opened),
        certificate_pool(opened.certificates, extra) == Ok::<Seq<CertificateView>, TspError>(pool),
        attributes_of(opened.signed_attrs) == Some(attrs),
        ess_bindings(attrs) == Ok::<Seq<EssBindingView>, TspError>(bindings),
        unsigned_attributes(opened.signer.unsigned_attrs) is Ok,
        0 <= at < pool.len(),
        is_named(opened.signer.sid, bindings, pool[at]),
        forall|k: int| 0 <= k < at ==> !signer_id_matches(opened.signer.sid, #[trigger] pool[k]),
        signed_content(attrs, opened.signer.digest_oid, opened.content) == Ok::<
            DigestAlgorithm,
            TspError,
        >(digest),
        algorithm_id_of(opened.signer.signature_algorithm) == Some(algorithm),
        cms_signature(
            opened.signed_attrs,
            opened.signer.signature,
            pool[at].spki,
            algorithm,
            digest,
        ) is Ok,
        timestamping_eku(pool[at]) is Ok,
        not_ca(pool[at]) is Ok,
        signing_key_usage(pool[at]) is Ok,
        tst_info(opened.content) == Ok::<TstInfoView, TspError>(info),
        tsa_identity(opened.content, pool[at]) is Ok,
        gen_time_within(pool[at], info.gen_time_der) is Ok,
    ensures
        verified_token(token, extra) == Ok::<
            (CertificateView, Seq<CertificateView>, TstInfoView),
            TspError,
        >((pool[at], pool, info)),
{
    law_signer_is_found(pool, opened.signer.sid, bindings, 0, at);
    assert(token_signer(opened, pool) == Ok::<(CertificateView, Seq<AttributeView>), TspError>(
        (pool[at], attrs),
    )) by {
        reveal(token_signer);
    }
    assert(token_signature(opened, attrs, pool[at]) is Ok) by {
        reveal(token_signature);
    }
    assert(signer_profile(pool[at]) is Ok) by {
        reveal(signer_profile);
    }
    assert(attested_info(opened.content, pool[at]) == Ok::<TstInfoView, TspError>(info)) by {
        reveal(attested_info);
    }
    lemma_verified(token, extra, opened, pool, attrs, pool[at], info);
}

proof fn lemma_verified(
    token: Seq<u8>,
    extra: Seq<CertificateView>,
    opened: OpenedTokenView,
    pool: Seq<CertificateView>,
    attrs: Seq<AttributeView>,
    signer: CertificateView,
    info: TstInfoView,
)
    requires
        opened_token(token) == Ok::<OpenedTokenView, TspError>(opened),
        certificate_pool(opened.certificates, extra) == Ok::<Seq<CertificateView>, TspError>(pool),
        token_signer(opened, pool) == Ok::<(CertificateView, Seq<AttributeView>), TspError>(
            (signer, attrs),
        ),
        token_signature(opened, attrs, signer) is Ok,
        signer_profile(signer) is Ok,
        attested_info(opened.content, signer) == Ok::<TstInfoView, TspError>(info),
    ensures
        verified_token(token, extra) == Ok::<
            (CertificateView, Seq<CertificateView>, TstInfoView),
            TspError,
        >((signer, pool, info)),
{
    reveal(verified_token);
}

/// What a verified token hands on is the TSTInfo that is signed and the certificates
/// of the token with the extra ones.
pub proof fn law_verified_parts(token: Seq<u8>, extra: Seq<CertificateView>)
    ensures
        verified_token(token, extra) matches Ok((signer, pool, info)) ==> {
            &&& opened_token(token) matches Ok(opened)
            &&& certificate_pool(opened.certificates, extra) == Ok::<
                Seq<CertificateView>,
                TspError,
            >(pool)
            &&& tst_info(opened.content) == Ok::<TstInfoView, TspError>(info)
            &&& pool.contains(signer)
        },
{
    reveal(verified_token);
    if verified_token(token, extra) is Ok {
        law_verified_token(token, extra);
    }
}

/// The path of a token starts with its signer, is asked about for the signing of
/// timestamps, under the policy given, at the time given or else at that of the token.
pub proof fn law_token_path(
    signer: CertificateView,
    pool: Seq<CertificateView>,
    gen_time_der: Seq<u8>,
    legacy: bool,
    time: Option<CivilTime>,
)
    ensures
        ({
            let path = timestamp_path(signer, pool, gen_time_der, legacy, time);
            &&& path.chain.len() >= 1 && path.chain[0] == signer
            &&& path.role is TimestampSigner
            &&& path.legacy == legacy
            &&& time matches Some(t) ==> path.at == t && !path.positive_fraction
            &&& time is None ==> (gen_time(gen_time_der) matches Ok((t, fraction)) ==> path.at == t
                && path.positive_fraction == fraction)
            &&& forall|i: int|
                1 <= i < path.chain.len() ==> #[trigger] path.chain[i].subject == path.chain[i
                    - 1].issuer && pool.contains(path.chain[i])
        }),
{
    let start = seq![signer];
    law_chain_links(start, pool, legacy, MAX_CHAIN_STEPS as nat);
    let r = grown_chain(start, pool, legacy, MAX_CHAIN_STEPS as nat);
    assert(r.take(1)[0] == signer);
}

/// What a trust store says of the path of a token decides, and what the token attests
/// is handed on unchanged.
pub proof fn law_path_verdict_decides(info: TstInfoView, verdict: Result<(), TrustError>)
    ensures
        after_path_verdict(info, verdict) is Ok <==> verdict is Ok,
        after_path_verdict(info, verdict) matches Ok(r) ==> r == info,
{
}

/// The chain grows by an issuer of its last certificate wherever one is at hand that
/// is not yet in it, up to a self-issued certificate; and an issuer whose key verifies
/// the last certificate goes before one whose key does not.
pub proof fn law_chain_grows(
    chain: Seq<CertificateView>,
    pool: Seq<CertificateView>,
    legacy: bool,
    steps: nat,
    at: int,
)
    requires
        chain.len() > 0,
        steps > 0,
        0 <= at < pool.len(),
        chain.last().issuer != chain.last().subject,
        pool[at].subject == chain.last().issuer,
        forall|i: int| 0 <= i < chain.len() ==> (#[trigger] chain[i]).tbs != pool[at].tbs,
    ensures
        grown_chain(chain, pool, legacy, steps).len() > chain.len(),
        certificate_signature(chain.last(), pool[at], legacy) is Ok ==> certificate_signature(
            chain.last(),
            grown_chain(chain, pool, legacy, steps)[chain.len() as int],
            legacy,
        ) is Ok,
{
    lemma_next_exists(chain, pool, legacy, at);
    let i = choose|i: int| next_index(chain, pool, legacy, i);
    let longer = chain.push(pool[i]);
    lemma_grown_prefix(longer, pool, legacy, (steps - 1) as nat);
    let r = grown_chain(chain, pool, legacy, steps);
    assert(r.take(longer.len() as int)[chain.len() as int] == pool[i]);
}

proof fn lemma_next_exists(
    chain: Seq<CertificateView>,
    pool: Seq<CertificateView>,
    legacy: bool,
    at: int,
)
    requires
        0 <= at < pool.len(),
        pool[at].subject == chain.last().issuer,
        forall|i: int| 0 <= i < chain.len() ==> (#[trigger] chain[i]).tbs != pool[at].tbs,
    ensures
        exists|i: int| next_index(chain, pool, legacy, i),
        forall|i: int|
            next_index(chain, pool, legacy, i) && certificate_signature(
                chain.last(),
                pool[at],
                legacy,
            ) is Ok ==> certificate_signature(
                chain.last(),
                #[trigger] pool[i],
                legacy,
            ) is Ok,
{
    assert(may_follow(chain, pool[at]));
    if exists|j: int| 0 <= j < pool.len() && verifies_last(chain, #[trigger] pool[j], legacy) {
        let j = choose|j: int|
            0 <= j < pool.len() && verifies_last(chain, #[trigger] pool[j], legacy);
        lemma_first_follower(chain, pool, legacy, true, j);
        let w = choose|w: int| first_follower(chain, pool, legacy, true, w);
        assert(next_index(chain, pool, legacy, w));
    } else {
        lemma_first_follower(chain, pool, legacy, false, at);
        let w = choose|w: int| first_follower(chain, pool, legacy, false, w);
        assert(next_index(chain, pool, legacy, w));
    }
}

proof fn lemma_first_follower(
    chain: Seq<CertificateView>,
    pool: Seq<CertificateView>,
    legacy: bool,
    signed: bool,
    at: int,
)
    requires
        0 <= at < pool.len(),
        if signed {
            verifies_last(chain, pool[at], legacy)
        } else {
            may_follow(chain, pool[at])
        },
    ensures
        exists|i: int| first_follower(chain, pool, legacy, signed, i),
    decreases at,
{
    if !first_follower(chain, pool, legacy, signed, at) {
        let j = choose|j: int|
            0 <= j < at && (if signed {
                verifies_last(chain, #[trigger] pool[j], legacy)
            } else {
                may_follow(chain, pool[j])
            });
        lemma_first_follower(chain, pool, legacy, signed, j);
    }
}

proof fn lemma_grown_prefix(
    chain: Seq<CertificateView>,
    pool: Seq<CertificateView>,
    legacy: bool,
    steps: nat,
)
    ensures
        grown_chain(chain, pool, legacy, steps).len() >= chain.len(),
        grown_chain(chain, pool, legacy, steps).take(chain.len() as int) == chain,
    decreases steps,
{
    let r = grown_chain(chain, pool, legacy, steps);
    if steps == 0 || chain.last().issuer == chain.last().subject || !(exists|i: int|
        next_index(chain, pool, legacy, i)) {
        assert(r.take(chain.len() as int) =~= chain);
    } else {
        let longer = chain.push(pool[choose|i: int| next_index(chain, pool, legacy, i)]);
        lemma_grown_prefix(longer, pool, legacy, (steps - 1) as nat);
        assert forall|k: int| 0 <= k < chain.len() implies r[k] == chain[k] by {
            assert(r.take(longer.len() as int)[k] == longer[k]);
        }
        assert(r.take(chain.len() as int) =~= chain);
    }
}

/// A binding that is accepted was written alone: no further certificate and no policies
/// stand beside it, and its hash has the size of its algorithm.
pub proof fn law_binding_is_written(value: Seq<u8>, v2: bool)
    ensures
        ess_binding(value, v2) matches Ok(b) ==> b.hash.len() == hash_size(b.digest) && exists|
            algorithm: Seq<u8>,
            serial: Seq<u8>,
        |
            {
                &&& value == #[trigger] signing_certificate_bytes(
                    algorithm + (tlv_bytes(0x04, b.hash) + serial),
                )
                &&& ess_issuer_serial(serial) == Ok::<Option<(Seq<u8>, Seq<u8>)>, TspError>(
                    b.issuer_serial,
                )
                &&& b.issuer_serial is None <==> serial.len() == 0
                &&& !v2 ==> algorithm.len() == 0 && b.digest is Sha1
                &&& v2 && algorithm.len() == 0 ==> b.digest == HashAlgorithm::Digest(
                    DigestAlgorithm::Sha256,
                )
                &&& v2 && algorithm.len() > 0 ==> (algorithm_id_of(algorithm) matches Some(a)
                    && b.digest is Digest && a.oid == digest_oid(b.digest->Digest_0) && (
                a.parameters matches Some(p) ==> p == seq![0x05u8, 0x00u8]))
            },
{
    lemma_field_is_written();
    if let Ok(b) = ess_binding(value, v2) {
        let (attribute, t0) = tst_field(value, 0x30, "ESS signing certificate")->Ok_0;
        assert(value =~= tlv_bytes(0x30, attribute));
        let (certs, t1) = tst_field(attribute, 0x30, "ESS certs")->Ok_0;
        assert(attribute =~= tlv_bytes(0x30, certs));
        let (id, t2) = tst_field(certs, 0x30, "ESS certificate ID")->Ok_0;
        assert(certs =~= tlv_bytes(0x30, id));
        let (digest, s1) = ess_hash_algorithm(id, v2)->Ok_0;
        let (hash, serial) = tst_field(s1, 0x04, "ESS certHash")->Ok_0;
        let none = Seq::<u8>::empty();
        assert(DER_NULL@ =~= seq![0x05u8, 0x00u8]);
        if v2 && id.len() > 0 && id[0] == 0x30 {
            let (contents, rest) = tst_field(id, 0x30, "ESS hashAlgorithm")->Ok_0;
            let algorithm = tlv_bytes(0x30, contents);
            let a = algorithm_id_of(algorithm)->0;
            law_digest_oid(b.digest->Digest_0, a.oid);
            assert(value == signing_certificate_bytes(
                algorithm + (tlv_bytes(0x04, b.hash) + serial),
            ));
        } else {
            assert(none + s1 =~= s1);
            assert(value == signing_certificate_bytes(none + (tlv_bytes(0x04, b.hash) + serial)));
        }
    }
}

/// The issuer and the serial number of a binding were written as the names of exactly
/// one issuer, a directory name, and a number, with nothing behind them.
pub proof fn law_issuer_serial_is_written(s: Seq<u8>)
    ensures
        ess_issuer_serial(s) matches Ok(Some((issuer, serial))) ==> int_canonical(serial)
            && serial.len() <= 21 && exists|names: Seq<u8>| #[trigger]
            names_one_issuer(names, issuer) && s == issuer_serial_bytes(names, serial),
        ess_issuer_serial(s) == Ok::<Option<(Seq<u8>, Seq<u8>)>, TspError>(None) <==> s.len() == 0,
{
    lemma_field_is_written();
    if let Ok(Some((issuer, serial))) = ess_issuer_serial(s) {
        let (body, t0) = tst_field(s, 0x30, "ESS issuerSerial")->Ok_0;
        assert(s =~= tlv_bytes(0x30, body));
        let (names, rest) = tst_field(body, 0x30, "ESS issuer names")->Ok_0;
        let (n, after) = tst_field(rest, 0x02, "ESS serialNumber")->Ok_0;
        assert(rest =~= tlv_bytes(0x02, serial));
        assert(names_one_issuer(names, issuer));
    }
}

/// Where a trust store is given, a token is accepted only where the store holds its
/// path to be valid: the path from its signer, for the signing of timestamps, under the
/// store's policy, at the time given or else at that of the token. The TSTInfo that
/// comes back is the one that is signed.
#[verifier::rlimit(30)]
pub proof fn law_trusted_token<P: Fn(&TrustQuery) -> Result<(), TrustError>>(
    token: Seq<u8>,
    hash: Seq<u8>,
    alg: DigestAlgorithm,
    nonce: Option<u64>,
    store: Option<&TrustStore<P>>,
    time: Option<CivilTime>,
    extra: Seq<CertificateView>,
    info: TstInfo,
)
    requires
        token_checked(token, hash, alg, nonce, store, time, extra, Ok(info)),
    ensures
        verified_token(token, extra) matches Ok((signer, pool, attested)) && info@ == attested
            && attested.message_hash == hash && attested.hash_algorithm == alg && (nonce is Some
            ==> attested.nonce == nonce) && (store matches Some(st) ==> exists|
            q: PathQueryView,
            verdict: Result<(), TrustError>,
        |
            {
                &&& #[trigger] st.answers(TrustQueryView::Path(q), verdict)
                &&& verdict is Ok
                &&& q.chain.len() >= 1 && q.chain[0] == signer
                &&& q.role is TimestampSigner
                &&& q.legacy == st.policy.legacy()
                &&& time matches Some(t) ==> q.at == t
                &&& time is None ==> (gen_time(attested.gen_time_der) matches Ok((t, fraction))
                    && q.at == t && q.positive_fraction == fraction)
            }),
{
    let (signer, pool, attested) = verified_token(token, extra)->Ok_0;
    lemma_time_is_read(token, extra);
    if let Some(st) = store {
        let legacy = st.policy.legacy();
        let q = timestamp_path(signer, pool, attested.gen_time_der, legacy, time);
        law_token_path(signer, pool, attested.gen_time_der, legacy, time);
        lemma_store_accepts(st, TrustQueryView::Path(q), attested, info);
    }
}

proof fn lemma_time_is_read(token: Seq<u8>, extra: Seq<CertificateView>)
    ensures
        verified_token(token, extra) matches Ok((_, _, info)) ==> gen_time(info.gen_time_der) is Ok,
{
    if verified_token(token, extra) is Ok {
        law_verified_token(token, extra);
    }
}

proof fn lemma_store_accepts<P: Fn(&TrustQuery) -> Result<(), TrustError>>(
    store: &TrustStore<P>,
    query: TrustQueryView,
    attested: TstInfoView,
    info: TstInfo,
)
    requires
        exists|verdict: Result<(), TrustError>| #[trigger]
            store.answers(query, verdict) && agrees(Ok(info), after_path_verdict(attested, verdict)),
    ensures
        exists|verdict: Result<(), TrustError>| #[trigger]
            store.answers(query, verdict) && verdict is Ok,
        info@ == attested,
{
    let verdict = choose|verdict: Result<(), TrustError>| #[trigger]
        store.answers(query, verdict) && agrees(Ok(info), after_path_verdict(attested, verdict));
    assert(store.answers(query, verdict) && verdict is Ok);
}

/// The issuer that a chain grows by is the first at hand: of those whose key verifies
/// the last certificate, or of all issuers where none does.
pub proof fn law_first_issuer(
    chain: Seq<CertificateView>,
    pool: Seq<CertificateView>,
    legacy: bool,
    steps: nat,
    at: int,
)
    requires
        chain.len() > 0,
        steps > 0,
        0 <= at < pool.len(),
        chain.last().issuer != chain.last().subject,
        pool[at].subject == chain.last().issuer,
        forall|i: int| 0 <= i < chain.len() ==> (#[trigger] chain[i]).tbs != pool[at].tbs,
        certificate_signature(chain.last(), pool[at], legacy) is Ok,
        forall|j: int|
            0 <= j < at ==> (#[trigger] pool[j]).subject != chain.last().issuer
                || certificate_signature(chain.last(), pool[j], legacy) is Err,
    ensures
        grown_chain(chain, pool, legacy, steps).len() > chain.len(),
        grown_chain(chain, pool, legacy, steps)[chain.len() as int] == pool[at],
{
    assert(may_follow(chain, pool[at]));
    assert forall|j: int| 0 <= j < at implies !verifies_last(chain, #[trigger] pool[j], legacy) by {
        assert(pool[j].subject != chain.last().issuer || certificate_signature(
            chain.last(),
            pool[j],
            legacy,
        ) is Err);
    }
    assert(first_follower(chain, pool, legacy, true, at));
    assert(next_index(chain, pool, legacy, at));
    let i = choose|i: int| next_index(chain, pool, legacy, i);
    lemma_next_index_unique(chain, pool, legacy, i, at);
    let longer = chain.push(pool[at]);
    lemma_grown_prefix(longer, pool, legacy, (steps - 1) as nat);
    let r = grown_chain(chain, pool, legacy, steps);
    assert(r.take(longer.len() as int)[chain.len() as int] == pool[at]);
}

/// A chain ends with a self-issued certificate, and where no issuer is at hand.
pub proof fn law_chain_ends(
    chain: Seq<CertificateView>,
    pool: Seq<CertificateView>,
    legacy: bool,
    steps: nat,
)
    requires
        chain.len() > 0,
        chain.last().issuer == chain.last().subject || forall|j: int|
            0 <= j < pool.len() ==> (#[trigger] pool[j]).subject != chain.last().issuer,
    ensures
        grown_chain(chain, pool, legacy, steps) == chain,
{
    if chain.last().issuer != chain.last().subject {
        assert forall|i: int| !next_index(chain, pool, legacy, i) by {
            if next_index(chain, pool, legacy, i) {
                assert(pool[i].subject != chain.last().issuer);
            }
        }
    }
}

/// The time of a token has the form of a GeneralizedTime in UTC: fourteen digits, then a
/// Z, or a point and digits that do not end in a zero and then a Z. It is the time of the
/// fourteen digits, in a year from 1970 on.
pub proof fn law_token_time_form(bytes: Seq<u8>)
    ensures
        gen_time(bytes) matches Ok((t, fraction)) ==> {
            &&& bytes.len() >= 15 && bytes.last() == 0x5A
            &&& t.valid() && t.year >= 1970 && bytes.take(14).push(0x5A) == written(t)
            &&& fraction <==> bytes.len() > 15
            &&& fraction ==> bytes.len() >= 17 && bytes[14] == 0x2E && bytes[bytes.len() - 2] != 0x30
                && forall|i: int| 15 <= i < bytes.len() - 1 ==> 0x30 <= #[trigger] bytes[i] <= 0x39
        },
{
    if let Ok((t, fraction)) = gen_time(bytes) {
        law_date_is_written(bytes.take(14).push(0x5A));
        if fraction {
            assert forall|i: int| 15 <= i < bytes.len() - 1 implies 0x30 <= #[trigger] bytes[i]
                <= 0x39 by {
                assert(is_digit(bytes[i]));
            }
        }
    }
}

/// A date counts from the year 1970 on.
pub proof fn law_dates_from_1970(c: CivilTime)
    requires
        c.valid(),
    ensures
        date_from_1970(written(c)) == (if c.year >= 1970 {
            Some(c)
        } else {
            None
        }),
{
    law_date_read_back(c);
}

/// What the extensions of a signer must say: the only extended key usage is critical and
/// names timestamping alone; the only basic constraints can be read and name no
/// authority; the only key usage can be read, has no stray bits, and permits signing.
pub proof fn law_signer_profile(cert: CertificateView, critical: bool, value: Seq<u8>)
    ensures
        has_single_extension(cert, ID_CE_EXT_KEY_USAGE@, critical, value) ==> (timestamping_eku(
            cert,
        ) is Ok <==> critical && extended_key_usage_of(value) == Some(seq![ID_KP_TIME_STAMPING@])),
        has_single_extension(cert, ID_CE_BASIC_CONSTRAINTS@, critical, value) ==> (not_ca(cert)
            is Ok <==> (basic_constraints_of(value) matches Some((ca, _)) && !ca)),
        has_single_extension(cert, ID_CE_KEY_USAGE@, critical, value) ==> (signing_key_usage(cert)
            is Ok <==> (canonical_contents(value) matches Some(c) && value[0] == 0x03 && (
        bit_string(c) matches Some((unused, octets)) && octets.len() > 0 && !nonzero_padding(
            unused,
            octets,
        ) && octets[0] / 0x40 != 0))),
{
    law_single_extension(cert, ID_CE_EXT_KEY_USAGE@, critical, value);
    law_single_extension(cert, ID_CE_BASIC_CONSTRAINTS@, critical, value);
    law_single_extension(cert, ID_CE_KEY_USAGE@, critical, value);
}

/// The path of a token takes in the issuer of its signer, where it is at hand.
pub proof fn law_token_path_grows(
    signer: CertificateView,
    pool: Seq<CertificateView>,
    gen_time_der: Seq<u8>,
    legacy: bool,
    time: Option<CivilTime>,
    at: int,
)
    requires
        0 <= at < pool.len(),
        signer.issuer != signer.subject,
        pool[at].subject == signer.issuer,
        pool[at].tbs != signer.tbs,
    ensures
        timestamp_path(signer, pool, gen_time_der, legacy, time).chain.len() >= 2,
        timestamp_path(signer, pool, gen_time_der, legacy, time).chain.len() <= 17,
{
    let start = seq![signer];
    assert(start.last() == signer);
    law_chain_grows(start, pool, legacy, MAX_CHAIN_STEPS as nat, at);
    law_chain_links(start, pool, legacy, MAX_CHAIN_STEPS as nat);
}

/// An identifier that combines a signature with a hash fixes that hash, and no other
/// identifier fixes one.
pub proof fn law_combined_identifiers(oid: Seq<u8>)
    ensures
        combined_digest(oid) == Some(DigestAlgorithm::Sha256) <==> oid == OID_RSA_SHA256@ || oid
            == OID_ECDSA_SHA256@,
        combined_digest(oid) == Some(DigestAlgorithm::Sha384) <==> oid == OID_RSA_SHA384@ || oid
            == OID_ECDSA_SHA384@,
        combined_digest(oid) == Some(DigestAlgorithm::Sha512) <==> oid == OID_RSA_SHA512@ || oid
            == OID_ECDSA_SHA512@,
        combined_digest(oid) matches Some(d) ==> d is Sha256 || d is Sha384 || d is Sha512,
{
    lemma_distinct_oids();
}

/// A token that attests something else than what was asked for is an invalid response; a
/// token of another policy, a wrong signer or a wrong signature is a failed
/// verification; and a hash that the backend refuses is a failure of the backend.
pub proof fn law_rejections(
    info: TstInfoView,
    hash: Seq<u8>,
    nonce: Option<u64>,
    alg: DigestAlgorithm,
    actual: Option<Seq<char>>,
    expected: Option<Seq<u8>>,
    opened: OpenedTokenView,
    attrs: Seq<AttributeView>,
    signer: CertificateView,
)
    ensures
        tst_info_matches(info, hash, nonce, alg) matches Err(e) ==> e is InvalidResponse,
        tst_policy(actual, expected) matches Err(e) ==> e is VerificationFailed,
        token_signature(opened, attrs, signer) matches Err(e) ==> e is VerificationFailed || e
            is Crypto,
        signer_profile(signer) matches Err(e) ==> e is VerificationFailed,
{
    reveal(token_signature);
    reveal(signer_profile);
}

} // verus!
