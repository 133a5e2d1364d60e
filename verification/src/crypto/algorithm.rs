//! Hash algorithms and their object identifiers.

use subtle::ConstantTimeEq;
use vstd::prelude::*;

use crate::bytes::bytes_equal;
#[allow(unused_imports)]
use crate::agrees_opt;

verus! {

/// id-sha1.
pub const OID_SHA1: [u8; 5] = [0x2B, 0x0E, 0x03, 0x02, 0x1A];

/// id-sha256.
pub const OID_SHA256: [u8; 9] = [0x60, 0x86, 0x48, 0x01, 0x65, 0x03, 0x04, 0x02, 0x01];

/// id-sha384.
pub const OID_SHA384: [u8; 9] = [0x60, 0x86, 0x48, 0x01, 0x65, 0x03, 0x04, 0x02, 0x02];

/// id-sha512.
pub const OID_SHA512: [u8; 9] = [0x60, 0x86, 0x48, 0x01, 0x65, 0x03, 0x04, 0x02, 0x03];

/// id-sha3-256.
pub const OID_SHA3_256: [u8; 9] = [0x60, 0x86, 0x48, 0x01, 0x65, 0x03, 0x04, 0x02, 0x08];

/// id-sha3-384.
pub const OID_SHA3_384: [u8; 9] = [0x60, 0x86, 0x48, 0x01, 0x65, 0x03, 0x04, 0x02, 0x09];

/// id-sha3-512.
pub const OID_SHA3_512: [u8; 9] = [0x60, 0x86, 0x48, 0x01, 0x65, 0x03, 0x04, 0x02, 0x0A];

/// A hash algorithm that documents and signatures may use.
#[derive(Debug, Clone, Copy, PartialEq, Eq, Structural)]
pub enum DigestAlgorithm {
    Sha256,
    Sha384,
    Sha512,
    Sha3_256,
    Sha3_384,
    Sha3_512,
}

/// A hash algorithm that identifies certificates: SHA-1 is admitted there only.
#[derive(Debug, Clone, Copy, PartialEq, Eq, Structural)]
pub enum HashAlgorithm {
    Sha1,
    Digest(DigestAlgorithm),
}

/// The body of an algorithm's object identifier.
pub open spec fn digest_oid(alg: DigestAlgorithm) -> Seq<u8> {
    match alg {
        DigestAlgorithm::Sha256 => OID_SHA256@,
        DigestAlgorithm::Sha384 => OID_SHA384@,
        DigestAlgorithm::Sha512 => OID_SHA512@,
        DigestAlgorithm::Sha3_256 => OID_SHA3_256@,
        DigestAlgorithm::Sha3_384 => OID_SHA3_384@,
        DigestAlgorithm::Sha3_512 => OID_SHA3_512@,
    }
}

/// The algorithm that an object identifier body names.
pub open spec fn digest_from_oid(oid: Seq<u8>) -> Option<DigestAlgorithm> {
    if oid == OID_SHA256@ {
        Some(DigestAlgorithm::Sha256)
    } else if oid == OID_SHA384@ {
        Some(DigestAlgorithm::Sha384)
    } else if oid == OID_SHA512@ {
        Some(DigestAlgorithm::Sha512)
    } else if oid == OID_SHA3_256@ {
        Some(DigestAlgorithm::Sha3_256)
    } else if oid == OID_SHA3_384@ {
        Some(DigestAlgorithm::Sha3_384)
    } else if oid == OID_SHA3_512@ {
        Some(DigestAlgorithm::Sha3_512)
    } else {
        None
    }
}

/// The number of bytes in a hash.
pub open spec fn digest_size(alg: DigestAlgorithm) -> nat {
    match alg {
        DigestAlgorithm::Sha256 | DigestAlgorithm::Sha3_256 => 32,
        DigestAlgorithm::Sha384 | DigestAlgorithm::Sha3_384 => 48,
        DigestAlgorithm::Sha512 | DigestAlgorithm::Sha3_512 => 64,
    }
}

/// The number of bytes in a hash.
pub open spec fn hash_size(alg: HashAlgorithm) -> nat {
    match alg {
        HashAlgorithm::Sha1 => 20,
        HashAlgorithm::Digest(d) => digest_size(d),
    }
}

/// The name of an algorithm.
pub open spec fn digest_name(alg: DigestAlgorithm) -> &'static str {
    match alg {
        DigestAlgorithm::Sha256 => "SHA-256",
        DigestAlgorithm::Sha384 => "SHA-384",
        DigestAlgorithm::Sha512 => "SHA-512",
        DigestAlgorithm::Sha3_256 => "SHA3-256",
        DigestAlgorithm::Sha3_384 => "SHA3-384",
        DigestAlgorithm::Sha3_512 => "SHA3-512",
    }
}

/// The name of an algorithm as it is written in code.
pub open spec fn digest_label(alg: DigestAlgorithm) -> &'static str {
    match alg {
        DigestAlgorithm::Sha256 => "Sha256",
        DigestAlgorithm::Sha384 => "Sha384",
        DigestAlgorithm::Sha512 => "Sha512",
        DigestAlgorithm::Sha3_256 => "Sha3_256",
        DigestAlgorithm::Sha3_384 => "Sha3_384",
        DigestAlgorithm::Sha3_512 => "Sha3_512",
    }
}

impl DigestAlgorithm {
    /// The body of the algorithm's object identifier.
    pub fn oid(&self) -> (r: Vec<u8>)
        ensures
            r@ == digest_oid(*self),
    {
        let mut v: Vec<u8> = Vec::new();
        match self {
            DigestAlgorithm::Sha256 => v.extend_from_slice(OID_SHA256.as_slice()),
            DigestAlgorithm::Sha384 => v.extend_from_slice(OID_SHA384.as_slice()),
            DigestAlgorithm::Sha512 => v.extend_from_slice(OID_SHA512.as_slice()),
            DigestAlgorithm::Sha3_256 => v.extend_from_slice(OID_SHA3_256.as_slice()),
            DigestAlgorithm::Sha3_384 => v.extend_from_slice(OID_SHA3_384.as_slice()),
            DigestAlgorithm::Sha3_512 => v.extend_from_slice(OID_SHA3_512.as_slice()),
        }
        assert(v@ =~= digest_oid(*self));
        v
    }

    /// The algorithm that an object identifier body names.
    pub fn from_oid(oid: &[u8]) -> (r: Option<DigestAlgorithm>)
        ensures
            r == digest_from_oid(oid@),
    {
        if bytes_equal(oid, OID_SHA256.as_slice()) {
            Some(DigestAlgorithm::Sha256)
        } else if bytes_equal(oid, OID_SHA384.as_slice()) {
            Some(DigestAlgorithm::Sha384)
        } else if bytes_equal(oid, OID_SHA512.as_slice()) {
            Some(DigestAlgorithm::Sha512)
        } else if bytes_equal(oid, OID_SHA3_256.as_slice()) {
            Some(DigestAlgorithm::Sha3_256)
        } else if bytes_equal(oid, OID_SHA3_384.as_slice()) {
            Some(DigestAlgorithm::Sha3_384)
        } else if bytes_equal(oid, OID_SHA3_512.as_slice()) {
            Some(DigestAlgorithm::Sha3_512)
        } else {
            None
        }
    }

    /// The name of the algorithm.
    pub fn name(&self) -> (r: &'static str)
        ensures
            r == digest_name(*self),
    {
        match self {
            DigestAlgorithm::Sha256 => "SHA-256",
            DigestAlgorithm::Sha384 => "SHA-384",
            DigestAlgorithm::Sha512 => "SHA-512",
            DigestAlgorithm::Sha3_256 => "SHA3-256",
            DigestAlgorithm::Sha3_384 => "SHA3-384",
            DigestAlgorithm::Sha3_512 => "SHA3-512",
        }
    }

    /// The name of the algorithm as it is written in code.
    pub fn label(&self) -> (r: &'static str)
        ensures
            r == digest_label(*self),
    {
        match self {
            DigestAlgorithm::Sha256 => "Sha256",
            DigestAlgorithm::Sha384 => "Sha384",
            DigestAlgorithm::Sha512 => "Sha512",
            DigestAlgorithm::Sha3_256 => "Sha3_256",
            DigestAlgorithm::Sha3_384 => "Sha3_384",
            DigestAlgorithm::Sha3_512 => "Sha3_512",
        }
    }

    /// The number of bytes in a hash.
    pub fn output_size(&self) -> (r: usize)
        ensures
            r == digest_size(*self),
    {
        match self {
            DigestAlgorithm::Sha256 | DigestAlgorithm::Sha3_256 => 32,
            DigestAlgorithm::Sha384 | DigestAlgorithm::Sha3_384 => 48,
            DigestAlgorithm::Sha512 | DigestAlgorithm::Sha3_512 => 64,
        }
    }

    /// The hash of `data`, where the cryptographic backend computes it.
    pub fn digest(&self, data: &[u8]) -> (r: Option<Vec<u8>>)
        ensures
            agrees_opt(r, hash_of(HashAlgorithm::Digest(*self), data@)),
            r matches Some(h) ==> h@.len() == digest_size(*self),
    {
        hash(HashAlgorithm::Digest(*self), data)
    }
}

impl HashAlgorithm {
    /// The number of bytes in a hash.
    pub fn output_size(&self) -> (r: usize)
        ensures
            r == hash_size(*self),
    {
        match self {
            HashAlgorithm::Sha1 => 20,
            HashAlgorithm::Digest(d) => d.output_size(),
        }
    }
}

/// An object identifier names the algorithm whose identifier it is, and no other.
pub proof fn law_digest_oid(alg: DigestAlgorithm, oid: Seq<u8>)
    ensures
        digest_from_oid(digest_oid(alg)) == Some(alg),
        digest_from_oid(oid) == Some(alg) ==> oid == digest_oid(alg),
{
    assert(OID_SHA256@[8] == 1 && OID_SHA384@[8] == 2 && OID_SHA512@[8] == 3);
    assert(OID_SHA3_256@[8] == 8 && OID_SHA3_384@[8] == 9 && OID_SHA3_512@[8] == 10);
}

/// What `riptering::digest::digest` returns for an algorithm and an input; none
/// where the backend refuses the algorithm.
pub uninterp spec fn hash_of(alg: HashAlgorithm, data: Seq<u8>) -> Option<Seq<u8>>;

/// Calls `riptering::digest::digest`. Claimed: the result is a function of the
/// algorithm and the input, and a hash has the algorithm's size.
#[verifier::external_body]
pub(crate) fn hash(alg: HashAlgorithm, data: &[u8]) -> (r: Option<Vec<u8>>)
    ensures
        agrees_opt(r, hash_of(alg, data@)),
        r matches Some(h) ==> h@.len() == hash_size(alg),
{
    let algorithm = match alg {
        HashAlgorithm::Sha1 => riptering::HashAlgorithm::Sha1,
        HashAlgorithm::Digest(DigestAlgorithm::Sha256) => riptering::HashAlgorithm::Sha256,
        HashAlgorithm::Digest(DigestAlgorithm::Sha384) => riptering::HashAlgorithm::Sha384,
        HashAlgorithm::Digest(DigestAlgorithm::Sha512) => riptering::HashAlgorithm::Sha512,
        HashAlgorithm::Digest(DigestAlgorithm::Sha3_256) => riptering::HashAlgorithm::Sha3_256,
        HashAlgorithm::Digest(DigestAlgorithm::Sha3_384) => riptering::HashAlgorithm::Sha3_384,
        HashAlgorithm::Digest(DigestAlgorithm::Sha3_512) => riptering::HashAlgorithm::Sha3_512,
    };
    riptering::digest::digest(algorithm, data).ok()
}

/// Calls `riptering::random_bytes`. Claimed: where bytes come back, they are as
/// many as were asked for. What they are is left to chance.
#[verifier::external_body]
pub(crate) fn random_bytes(count: usize) -> (r: Option<Vec<u8>>)
    ensures
        r matches Some(v) ==> v@.len() == count,
{
    riptering::random_bytes(count).ok()
}

/// Calls `subtle::ConstantTimeEq::ct_eq` on byte strings. Claimed: it tells
/// whether the two are equal.
#[verifier::external_body]
pub(crate) fn same_bytes(a: &[u8], b: &[u8]) -> (r: bool)
    ensures
        r == (a@ == b@),
{
    bool::from(a.ct_eq(b))
}

/// Calls `subtle::ConstantTimeEq::ct_eq` on numbers. Claimed: it tells whether
/// the two are equal.
#[verifier::external_body]
pub(crate) fn same_number(a: u64, b: u64) -> (r: bool)
    ensures
        r == (a == b),
{
    bool::from(a.ct_eq(&b))
}

} // verus!
