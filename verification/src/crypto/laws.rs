//! What an accepted signature means in terms of the verdicts on it.

use vstd::prelude::*;

#[allow(unused_imports)]
use crate::asn1::laws::{law_algorithm_id_read_back, lemma_elements, lemma_short};
#[allow(unused_imports)]
use crate::asn1::{algorithm_id_of, oid_valid, uint_within, whole_arcs, AlgorithmIdView};
#[allow(unused_imports)]
use crate::cert::CertificateView;
#[allow(unused_imports)]
use crate::crypto::algorithm::{digest_from_oid, digest_oid, law_digest_oid, DigestAlgorithm};
#[allow(unused_imports)]
use crate::crypto::verify::{
    certificate_signature, curve_of, ecdsa_verdict, ed25519_verdict, mask_hash, pss_hash,
    pss_parameters, pss_salt_length, pss_signature, pss_verdict, rsa_verdict,
    signature_by_algorithm, signature_by_oid, Curve, SignatureHash, OID_ECDSA_SHA1,
    OID_ECDSA_SHA224, OID_ECDSA_SHA256, OID_ECDSA_SHA384, OID_ECDSA_SHA512, OID_ED25519, OID_MGF1,
    OID_P256, OID_P384, OID_P521, OID_RSASSA_PSS, OID_RSA_SHA1, OID_RSA_SHA224, OID_RSA_SHA256,
    OID_RSA_SHA384, OID_RSA_SHA512,
};
#[allow(unused_imports)]
use crate::der_utils::{integer_contents, law_integer_contents, lemma_be_len_u64, tlv, tlv_bytes};
#[allow(unused_imports)]
use crate::error::TrustError;

verus! {

proof fn lemma_distinct_identifiers()
    ensures
        OID_RSA_SHA1@[8] == 0x05 && OID_RSASSA_PSS@[8] == 0x0A && OID_RSA_SHA256@[8] == 0x0B
            && OID_RSA_SHA384@[8] == 0x0C && OID_RSA_SHA512@[8] == 0x0D && OID_RSA_SHA224@[8]
            == 0x0E,
        OID_ECDSA_SHA224@[7] == 1 && OID_ECDSA_SHA256@[7] == 2 && OID_ECDSA_SHA384@[7] == 3
            && OID_ECDSA_SHA512@[7] == 4,
        OID_P384@[4] == 0x22 && OID_P521@[4] == 0x23,
{
}

/// A PKCS #1 signature under a modern hash is accepted exactly where the backend
/// finds that the key signed the data, hashed as the identifier says.
pub proof fn law_rsa_signature(
    data: Seq<u8>,
    signature: Seq<u8>,
    spki: Seq<u8>,
    legacy: bool,
)
    ensures
        signature_by_oid(data, signature, spki, OID_RSA_SHA256@, legacy) is Ok <==> rsa_verdict(
            SignatureHash::Sha256,
            spki,
            data,
            signature,
        ) == Some(true),
        signature_by_oid(data, signature, spki, OID_RSA_SHA384@, legacy) is Ok <==> rsa_verdict(
            SignatureHash::Sha384,
            spki,
            data,
            signature,
        ) == Some(true),
        signature_by_oid(data, signature, spki, OID_RSA_SHA512@, legacy) is Ok <==> rsa_verdict(
            SignatureHash::Sha512,
            spki,
            data,
            signature,
        ) == Some(true),
{
    lemma_distinct_identifiers();
}

/// The hash of the backend that an ECDSA identifier names.
proof fn lemma_ecdsa(
    data: Seq<u8>,
    signature: Seq<u8>,
    spki: Seq<u8>,
    curve: Curve,
    legacy: bool,
)
    requires
        curve_of(spki) == Some(curve),
    ensures
        signature_by_oid(data, signature, spki, OID_ECDSA_SHA256@, legacy) is Ok <==> ecdsa_verdict(
            curve,
            SignatureHash::Sha256,
            spki,
            data,
            signature,
        ) == Some(true),
        signature_by_oid(data, signature, spki, OID_ECDSA_SHA384@, legacy) is Ok <==> ecdsa_verdict(
            curve,
            SignatureHash::Sha384,
            spki,
            data,
            signature,
        ) == Some(true),
        signature_by_oid(data, signature, spki, OID_ECDSA_SHA512@, legacy) is Ok <==> ecdsa_verdict(
            curve,
            SignatureHash::Sha512,
            spki,
            data,
            signature,
        ) == Some(true),
{
    lemma_distinct_identifiers();
}

/// A key on a named curve as it is written.
pub open spec fn curve_key(algorithm: Seq<u8>, name: Seq<u8>, key: Seq<u8>) -> Seq<u8> {
    tlv_bytes(0x30, tlv_bytes(0x30, tlv_bytes(0x06, algorithm) + tlv_bytes(0x06, name)) + key)
}

/// The curve of a key is the one that it names.
pub proof fn law_curve_read_back(algorithm: Seq<u8>, name: Seq<u8>, key: Seq<u8>)
    requires
        algorithm.len() <= 0x100_0000,
        name.len() <= 0x100_0000,
        key.len() <= 0x100_0000,
    ensures
        curve_of(curve_key(algorithm, name, key)) == Some(Curve::P256) <==> name == OID_P256@,
        curve_of(curve_key(algorithm, name, key)) == Some(Curve::P384) <==> name == OID_P384@,
        curve_of(curve_key(algorithm, name, key)) == Some(Curve::P521) <==> name == OID_P521@,
{
    lemma_elements();
    lemma_short();
    lemma_distinct_identifiers();
    let parameters = tlv_bytes(0x06, name);
    let inner = tlv_bytes(0x06, algorithm) + parameters;
    assert(inner.len() <= 0x300_0000);
    let info = tlv_bytes(0x30, inner) + key;
    assert(info.len() <= 0x500_0000);
}

/// An ECDSA signature is accepted exactly where the backend finds that the key, on
/// the curve that it names, signed the data, hashed as the identifier says.
pub proof fn law_ecdsa_signature(
    data: Seq<u8>,
    signature: Seq<u8>,
    algorithm: Seq<u8>,
    key: Seq<u8>,
    legacy: bool,
)
    requires
        algorithm.len() <= 0x100_0000,
        key.len() <= 0x100_0000,
    ensures
        ({
            let p256 = curve_key(algorithm, OID_P256@, key);
            let p384 = curve_key(algorithm, OID_P384@, key);
            let p521 = curve_key(algorithm, OID_P521@, key);
            &&& signature_by_oid(data, signature, p256, OID_ECDSA_SHA256@, legacy) is Ok
                <==> ecdsa_verdict(Curve::P256, SignatureHash::Sha256, p256, data, signature)
                == Some(true)
            &&& signature_by_oid(data, signature, p256, OID_ECDSA_SHA384@, legacy) is Ok
                <==> ecdsa_verdict(Curve::P256, SignatureHash::Sha384, p256, data, signature)
                == Some(true)
            &&& signature_by_oid(data, signature, p256, OID_ECDSA_SHA512@, legacy) is Ok
                <==> ecdsa_verdict(Curve::P256, SignatureHash::Sha512, p256, data, signature)
                == Some(true)
            &&& signature_by_oid(data, signature, p384, OID_ECDSA_SHA256@, legacy) is Ok
                <==> ecdsa_verdict(Curve::P384, SignatureHash::Sha256, p384, data, signature)
                == Some(true)
            &&& signature_by_oid(data, signature, p384, OID_ECDSA_SHA384@, legacy) is Ok
                <==> ecdsa_verdict(Curve::P384, SignatureHash::Sha384, p384, data, signature)
                == Some(true)
            &&& signature_by_oid(data, signature, p384, OID_ECDSA_SHA512@, legacy) is Ok
                <==> ecdsa_verdict(Curve::P384, SignatureHash::Sha512, p384, data, signature)
                == Some(true)
            &&& signature_by_oid(data, signature, p521, OID_ECDSA_SHA512@, legacy) is Ok
                <==> ecdsa_verdict(Curve::P521, SignatureHash::Sha512, p521, data, signature)
                == Some(true)
        }),
{
    law_curve_read_back(algorithm, OID_P256@, key);
    law_curve_read_back(algorithm, OID_P384@, key);
    law_curve_read_back(algorithm, OID_P521@, key);
    lemma_ecdsa(data, signature, curve_key(algorithm, OID_P256@, key), Curve::P256, legacy);
    lemma_ecdsa(data, signature, curve_key(algorithm, OID_P384@, key), Curve::P384, legacy);
    lemma_ecdsa(data, signature, curve_key(algorithm, OID_P521@, key), Curve::P521, legacy);
}

/// An Ed25519 signature is accepted exactly where the backend finds that the key
/// signed the data.
pub proof fn law_ed25519_signature(
    data: Seq<u8>,
    signature: Seq<u8>,
    spki: Seq<u8>,
    legacy: bool,
)
    ensures
        signature_by_oid(data, signature, spki, OID_ED25519@, legacy) is Ok <==> ed25519_verdict(
            spki,
            data,
            signature,
        ) == Some(true),
{
    lemma_distinct_identifiers();
}

/// Signatures under SHA-1 and SHA-224 are never accepted, but where the policy admits
/// them and the backend finds that the key signed the data.
pub proof fn law_weak_hashes(
    data: Seq<u8>,
    signature: Seq<u8>,
    spki: Seq<u8>,
    legacy: bool,
)
    ensures
        signature_by_oid(data, signature, spki, OID_RSA_SHA1@, legacy) is Ok <==> legacy
            && rsa_verdict(SignatureHash::Sha1, spki, data, signature) == Some(true),
        signature_by_oid(data, signature, spki, OID_RSA_SHA224@, legacy) is Ok <==> legacy
            && rsa_verdict(SignatureHash::Sha224, spki, data, signature) == Some(true),
        signature_by_oid(data, signature, spki, OID_ECDSA_SHA1@, legacy) is Ok <==> legacy && (
        curve_of(spki) matches Some(curve) && ecdsa_verdict(
            curve,
            SignatureHash::Sha1,
            spki,
            data,
            signature,
        ) == Some(true)),
        signature_by_oid(data, signature, spki, OID_ECDSA_SHA224@, legacy) is Ok <==> legacy && (
        curve_of(spki) matches Some(curve) && ecdsa_verdict(
            curve,
            SignatureHash::Sha224,
            spki,
            data,
            signature,
        ) == Some(true)),
{
    lemma_distinct_identifiers();
}

/// Some backend found that the key signed the data.
pub open spec fn backend_accepts(data: Seq<u8>, signature: Seq<u8>, spki: Seq<u8>) -> bool {
    ||| exists|h: SignatureHash| #[trigger] rsa_verdict(h, spki, data, signature) == Some(true)
    ||| exists|c: Curve, h: SignatureHash| #[trigger]
        ecdsa_verdict(c, h, spki, data, signature) == Some(true)
    ||| ed25519_verdict(spki, data, signature) == Some(true)
    ||| exists|h: DigestAlgorithm, n: usize| #[trigger]
        pss_verdict(h, n, spki, data, signature) == Some(true)
}

/// No signature is accepted that no backend accepts over the same data, with the same
/// key.
pub proof fn law_accepted_signature(
    data: Seq<u8>,
    signature: Seq<u8>,
    spki: Seq<u8>,
    algorithm: AlgorithmIdView,
    legacy: bool,
)
    ensures
        signature_by_oid(data, signature, spki, algorithm.oid, legacy) is Ok ==> backend_accepts(
            data,
            signature,
            spki,
        ),
        signature_by_algorithm(data, signature, spki, algorithm, legacy) is Ok ==> backend_accepts(
            data,
            signature,
            spki,
        ),
        pss_signature(data, signature, spki, algorithm.parameters) is Ok ==> backend_accepts(
            data,
            signature,
            spki,
        ),
{
}

/// The mask generation function as it is written.
pub open spec fn mask_bytes(mask: DigestAlgorithm) -> Seq<u8> {
    tlv_bytes(
        0x30,
        tlv_bytes(0x06, OID_MGF1@) + tlv_bytes(0x30, tlv_bytes(0x06, digest_oid(mask))),
    )
}

/// The length of the salt as it is written, where it is.
pub open spec fn salt_bytes(salt: Option<u32>) -> Seq<u8> {
    match salt {
        Some(n) => tlv_bytes(0xA2, tlv_bytes(0x02, integer_contents(n as nat))),
        None => Seq::empty(),
    }
}

/// RSASSA-PSS parameters as they are written: the hash, the hash of the mask, and the
/// length of the salt where it is not the default.
pub open spec fn pss_parameters_bytes(
    hash: DigestAlgorithm,
    mask: DigestAlgorithm,
    salt: Option<u32>,
) -> Seq<u8> {
    tlv_bytes(
        0x30,
        tlv_bytes(0xA0, tlv_bytes(0x30, tlv_bytes(0x06, digest_oid(hash)))) + (tlv_bytes(
            0xA1,
            mask_bytes(mask),
        ) + salt_bytes(salt)),
    )
}

proof fn lemma_pss_hashes(hash: DigestAlgorithm)
    ensures
        pss_hash(tlv_bytes(0x30, tlv_bytes(0x06, digest_oid(hash)))) == Some(hash),
        mask_hash(mask_bytes(hash)) == Some(hash),
        tlv_bytes(0x30, tlv_bytes(0x06, digest_oid(hash))).len() <= 60,
        mask_bytes(hash).len() <= 160,
{
    lemma_oids();
    lemma_short();
    assert(OID_MGF1@.len() == 9);
    law_algorithm_id_read_back(digest_oid(hash), 0x05, Seq::empty());
    law_algorithm_id_read_back(OID_MGF1@, 0x30, tlv_bytes(0x06, digest_oid(hash)));
}

proof fn lemma_pss_salt(salt: Option<u32>)
    ensures
        pss_salt_length(salt_bytes(salt)) == Some(
            (
                match salt {
                    Some(n) => n as usize,
                    None => 20usize,
                },
                Seq::<u8>::empty(),
            ),
        ),
        salt_bytes(salt).len() <= 30,
{
    lemma_elements();
    lemma_short();
    match salt {
        Some(n) => {
            lemma_be_len_u64(n as u64);
            law_integer_contents(n as nat);
            assert(uint_within(integer_contents(n as nat), u64::MAX as nat) == Some(n as nat));
        },
        None => {},
    }
}

proof fn lemma_oids()
    ensures
        oid_valid(OID_MGF1@),
        forall|alg: DigestAlgorithm|
            oid_valid(#[trigger] digest_oid(alg)) && digest_oid(alg).len() <= 39
                && digest_from_oid(digest_oid(alg)) == Some(alg),
{
    assert(oid_valid(OID_MGF1@)) by {
        reveal(oid_valid);
        reveal_with_fuel(whole_arcs, 10);
    }
    assert forall|alg: DigestAlgorithm|
        oid_valid(#[trigger] digest_oid(alg)) && digest_oid(alg).len() <= 39 && digest_from_oid(
            digest_oid(alg),
        ) == Some(alg) by {
        law_digest_oid(alg, digest_oid(alg));
        reveal(oid_valid);
        reveal_with_fuel(whole_arcs, 10);
    }
}

/// The hash and the length of the salt are those that were written, twenty octets
/// where no length is written; and the mask must use the same hash.
pub proof fn law_pss_parameters_read_back(
    hash: DigestAlgorithm,
    mask: DigestAlgorithm,
    salt: Option<u32>,
)
    ensures
        pss_parameters(pss_parameters_bytes(hash, mask, salt)) == (if mask == hash {
            Some((
                hash,
                match salt {
                    Some(n) => n as usize,
                    None => 20usize,
                },
            ))
        } else {
            None
        }),
{
    lemma_elements();
    lemma_short();
    lemma_pss_hashes(hash);
    lemma_pss_hashes(mask);
    lemma_pss_salt(salt);
}

/// A RSASSA-PSS signature is accepted exactly where the backend finds that the key
/// signed the data with the hash and the salt of the parameters; without parameters
/// none is.
pub proof fn law_pss_signature(
    data: Seq<u8>,
    signature: Seq<u8>,
    spki: Seq<u8>,
    hash: DigestAlgorithm,
    salt: u32,
)
    ensures
        ({
            let parameters = pss_parameters_bytes(hash, hash, Some(salt));
            let algorithm = AlgorithmIdView { oid: OID_RSASSA_PSS@, parameters: Some(parameters) };
            &&& pss_signature(data, signature, spki, Some(parameters)) == Ok::<
                DigestAlgorithm,
                TrustError,
            >(hash) <==> pss_verdict(hash, salt as usize, spki, data, signature) == Some(true)
            &&& pss_signature(data, signature, spki, Some(parameters)) is Ok <==> pss_verdict(
                hash,
                salt as usize,
                spki,
                data,
                signature,
            ) == Some(true)
            &&& forall|legacy: bool| #[trigger]
                signature_by_algorithm(data, signature, spki, algorithm, legacy) is Ok
                    <==> pss_verdict(hash, salt as usize, spki, data, signature) == Some(true)
        }),
        pss_signature(data, signature, spki, None) is Err,
{
    law_pss_parameters_read_back(hash, hash, Some(salt));
}

/// A certificate that passes as signed by an issuer carries one signature algorithm,
/// inside and outside of what is signed, and a backend found that the issuer's key
/// signed its TBSCertificate.
pub proof fn law_certificate_signature(
    cert: CertificateView,
    issuer: CertificateView,
    legacy: bool,
)
    requires
        certificate_signature(cert, issuer, legacy) is Ok,
    ensures
        cert.signature_algorithm == cert.tbs_signature_algorithm,
        algorithm_id_of(cert.signature_algorithm) is Some,
        backend_accepts(cert.tbs, cert.signature, issuer.spki),
{
    law_accepted_signature(
        cert.tbs,
        cert.signature,
        issuer.spki,
        algorithm_id_of(cert.signature_algorithm)->0,
        legacy,
    );
}

/// A certificate whose two algorithm identifiers are the same passes as signed by an
/// issuer exactly where the signature over its TBSCertificate is accepted under the
/// issuer's key.
pub proof fn law_certificate_signature_is_owed(
    cert: CertificateView,
    issuer: CertificateView,
    algorithm: AlgorithmIdView,
    legacy: bool,
)
    requires
        cert.signature_algorithm == cert.tbs_signature_algorithm,
        algorithm_id_of(cert.signature_algorithm) == Some(algorithm),
    ensures
        certificate_signature(cert, issuer, legacy) is Ok <==> signature_by_algorithm(
            cert.tbs,
            cert.signature,
            issuer.spki,
            algorithm,
            legacy,
        ) is Ok,
        algorithm.oid != OID_RSASSA_PSS@ ==> (certificate_signature(cert, issuer, legacy) is Ok
            <==> signature_by_oid(
            cert.tbs,
            cert.signature,
            issuer.spki,
            algorithm.oid,
            legacy,
        ) is Ok),
{
}

/// RSASSA-PSS parameters that are accepted name a hash, a mask generation function over
/// the same hash, and hold nothing behind them.
pub proof fn law_pss_parameters_hold(parameters: Seq<u8>)
    ensures
        pss_parameters(parameters) matches Some((hash, _)) ==> {
            &&& tlv(parameters) matches Ok((a, body, after))
            &&& a == 0x30 && after.len() == 0
            &&& tlv(body) matches Ok((b, hash_der, s1))
            &&& b == 0xA0
            &&& algorithm_id_of(hash_der) matches Some(h)
            &&& h.oid == digest_oid(hash)
            &&& tlv(s1) matches Ok((c, mask_der, s2))
            &&& c == 0xA1
            &&& algorithm_id_of(mask_der) matches Some(m)
            &&& m.oid == OID_MGF1@
            &&& m.parameters matches Some(inner)
            &&& algorithm_id_of(inner) matches Some(g)
            &&& g.oid == digest_oid(hash)
        },
{
    if let Some((hash, _)) = pss_parameters(parameters) {
        let body = tlv(parameters)->Ok_0.1;
        let hash_der = tlv(body)->Ok_0.1;
        let mask_der = tlv(tlv(body)->Ok_0.2)->Ok_0.1;
        let h = algorithm_id_of(hash_der)->0;
        let m = algorithm_id_of(mask_der)->0;
        law_digest_oid(hash, h.oid);
        law_digest_oid(hash, algorithm_id_of(m.parameters->0)->0.oid);
    }
}

} // verus!
