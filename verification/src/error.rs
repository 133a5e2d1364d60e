//! Errors of the library and their texts.

use vstd::prelude::*;

use crate::crypto::algorithm::DigestAlgorithm;
use crate::der_utils::DerError;
use crate::text::{push_decimal, push_hex};
use crate::tsp::status::PkiStatus;
#[allow(unused_imports)]
use crate::crypto::algorithm::{digest_label, digest_name, digest_size};
#[allow(unused_imports)]
use crate::ltv::status::ocsp_status_name;
#[allow(unused_imports)]
use crate::text::{decimal_text, hex_text};

verus! {

/// What is wrong with an input.
#[derive(Debug, Clone, Copy)]
pub enum Fault {
    /// A condition that its text names in full.
    Text(&'static str),
    /// The named element cannot be read.
    Der(&'static str, DerError),
    /// The named element is read but is not well-formed DER of its type.
    Malformed(&'static str),
    /// A tag that does not belong where it stands; the text ends before the tag.
    Tag(&'static str, u8),
    /// The named element carries another tag than the expected one.
    Expected(&'static str, u8, u8),
    /// The named element is repeated or comes too late.
    Order(&'static str),
    /// A count that is not allowed; the text ends before the count.
    Count(&'static str, usize),
    /// The version of a TSTInfo is not 1.
    Version(u64),
    /// The expected nonce and the one that came back.
    Nonce(u64, u64),
    /// The length of a message imprint that is not the length of its hash.
    HashLength(DigestAlgorithm, usize),
    /// The expected hash algorithm and the one that came back.
    HashAlgorithm(DigestAlgorithm, DigestAlgorithm),
    /// A certificate or a signature is not accepted, and why.
    Trust(&'static str, TrustError),
}

/// Why a signature or a certification path is not accepted.
#[derive(Debug, Clone, Copy)]
pub enum TrustError {
    /// The signature does not verify.
    SignatureVerification(&'static str),
    /// The signature's hash and the declared hash differ: what carries the first,
    /// the first, the second.
    DigestDisagrees(&'static str, DigestAlgorithm, DigestAlgorithm),
    /// The algorithm is not supported, or the policy does not admit it.
    UnsupportedAlgorithm(&'static str),
    /// The certification path is not valid.
    Path(&'static str),
}

/// Errors of revocation checking.
#[derive(Debug, Clone, Copy)]
pub enum LtvError {
    /// The OCSP exchange is not acceptable.
    Ocsp(Fault),
    /// The responder answered with this status instead of a response.
    OcspResponderStatus(u8),
    /// The cryptographic backend failed.
    Crypto,
}

/// Errors of timestamping.
#[derive(Debug, Clone)]
pub enum TspError {
    /// The response or the token is not well-formed or not the one asked for.
    InvalidResponse(Fault),
    /// The authority refused the request.
    TsaError { status: PkiStatus, message: Option<String> },
    /// The token does not verify.
    VerificationFailed(Fault),
    /// The cryptographic backend failed.
    Crypto,
}

impl TrustError {
    /// The text of the error.
    pub open spec fn spec_message(self) -> Seq<char> {
        match self {
            TrustError::SignatureVerification(t) => "signature verification failed: "@ + t@,
            TrustError::DigestDisagrees(what, a, b) => "signature verification failed: "@ + what@
                + " ("@ + digest_name(a)@ + ") disagrees with SignerInfo.digestAlgorithm ("@
                + digest_name(b)@ + ")"@,
            TrustError::UnsupportedAlgorithm(t) => "unsupported algorithm: "@ + t@,
            TrustError::Path(t) => t@,
        }
    }

    /// The text of the error.
    pub fn message(&self) -> (r: String)
        ensures
            r@ == self.spec_message(),
    {
        let mut out: String = String::new();
        match self {
            TrustError::SignatureVerification(t) => {
                out.append("signature verification failed: ");
                out.append(t);
            },
            TrustError::DigestDisagrees(what, a, b) => {
                out.append("signature verification failed: ");
                out.append(what);
                out.append(" (");
                out.append(a.name());
                out.append(") disagrees with SignerInfo.digestAlgorithm (");
                out.append(b.name());
                out.append(")");
            },
            TrustError::UnsupportedAlgorithm(t) => {
                out.append("unsupported algorithm: ");
                out.append(t);
            },
            TrustError::Path(t) => out.append(t),
        }
        assert(out@ =~= self.spec_message());
        out
    }
}

impl Fault {
    /// The text of the fault.
    pub open spec fn spec_message(self) -> Seq<char> {
        match self {
            Fault::Text(t) => t@,
            Fault::Der(what, e) => what@ + ": "@ + e.spec_text()@,
            Fault::Malformed(what) => what@ + ": malformed DER"@,
            Fault::Tag(before, tag) => before@ + "0x"@ + hex_text(tag),
            Fault::Expected(what, want, got) => what@ + ": expected tag 0x"@ + hex_text(want)
                + ", got 0x"@ + hex_text(got),
            Fault::Order(what) => what@ + ": duplicate or out-of-order field"@,
            Fault::Count(before, n) => before@ + decimal_text(n as nat),
            Fault::Version(v) => "TSTInfo: unsupported version "@ + decimal_text(v as nat)
                + " (expected 1)"@,
            Fault::Nonce(want, got) => "nonce mismatch: expected "@ + decimal_text(want as nat)
                + ", got "@ + decimal_text(got as nat),
            Fault::HashLength(alg, n) => "messageImprint: "@ + digest_name(alg)@
                + " hash must contain "@ + decimal_text(digest_size(alg)) + " bytes, got "@
                + decimal_text(n as nat),
            Fault::HashAlgorithm(want, got) => "TSTInfo hash algorithm mismatch: expected "@
                + digest_label(want)@ + ", got "@ + digest_label(got)@,
            Fault::Trust(what, e) => what@ + ": "@ + e.spec_message(),
        }
    }

    /// The text of the fault.
    pub fn message(&self) -> (r: String)
        ensures
            r@ == self.spec_message(),
    {
        let mut out: String = String::new();
        match self {
            Fault::Text(t) => out.append(t),
            Fault::Der(what, e) => {
                out.append(what);
                out.append(": ");
                out.append(e.text());
            },
            Fault::Malformed(what) => {
                out.append(what);
                out.append(": malformed DER");
            },
            Fault::Tag(before, tag) => {
                out.append(before);
                out.append("0x");
                push_hex(&mut out, *tag);
            },
            Fault::Expected(what, want, got) => {
                out.append(what);
                out.append(": expected tag 0x");
                push_hex(&mut out, *want);
                out.append(", got 0x");
                push_hex(&mut out, *got);
            },
            Fault::Order(what) => {
                out.append(what);
                out.append(": duplicate or out-of-order field");
            },
            Fault::Count(before, n) => {
                out.append(before);
                push_decimal(&mut out, *n as u64);
            },
            Fault::Version(v) => {
                out.append("TSTInfo: unsupported version ");
                push_decimal(&mut out, *v);
                out.append(" (expected 1)");
            },
            Fault::Nonce(want, got) => {
                out.append("nonce mismatch: expected ");
                push_decimal(&mut out, *want);
                out.append(", got ");
                push_decimal(&mut out, *got);
            },
            Fault::HashLength(alg, n) => {
                out.append("messageImprint: ");
                out.append(alg.name());
                out.append(" hash must contain ");
                push_decimal(&mut out, alg.output_size() as u64);
                out.append(" bytes, got ");
                push_decimal(&mut out, *n as u64);
            },
            Fault::HashAlgorithm(want, got) => {
                out.append("TSTInfo hash algorithm mismatch: expected ");
                out.append(want.label());
                out.append(", got ");
                out.append(got.label());
            },
            Fault::Trust(what, e) => {
                out.append(what);
                out.append(": ");
                let inner: String = e.message();
                out.append(inner.as_str());
            },
        }
        assert(out@ =~= self.spec_message());
        out
    }
}

impl LtvError {
    /// The text of the error.
    pub open spec fn spec_message(self) -> Seq<char> {
        match self {
            LtvError::Ocsp(f) => "OCSP error: "@ + f.spec_message(),
            LtvError::OcspResponderStatus(s) => "OCSP responder returned "@
                + ocsp_status_name(s)@ + " ("@ + decimal_text(s as nat) + ")"@,
            LtvError::Crypto => "cryptographic backend failure"@,
        }
    }

    /// The text of the error.
    pub fn message(&self) -> (r: String)
        ensures
            r@ == self.spec_message(),
    {
        let mut out: String = String::new();
        match self {
            LtvError::Ocsp(f) => {
                out.append("OCSP error: ");
                let inner: String = f.message();
                out.append(inner.as_str());
            },
            LtvError::OcspResponderStatus(s) => {
                out.append("OCSP responder returned ");
                out.append(crate::ltv::status::ocsp_response_status_name(*s));
                out.append(" (");
                push_decimal(&mut out, *s as u64);
                out.append(")");
            },
            LtvError::Crypto => out.append("cryptographic backend failure"),
        }
        assert(out@ =~= self.spec_message());
        out
    }
}

impl TspError {
    /// The text of the error.
    pub open spec fn spec_message(self) -> Seq<char> {
        match self {
            TspError::InvalidResponse(f) => "invalid timestamp response: "@ + f.spec_message(),
            TspError::TsaError { status, message } => match message {
                Some(m) => "TSA error: status="@ + status.spec_text() + ", message="@ + m@,
                None => "TSA error: status="@ + status.spec_text(),
            },
            TspError::VerificationFailed(f) => "timestamp verification failed: "@
                + f.spec_message(),
            TspError::Crypto => "cryptographic backend failure"@,
        }
    }

    /// The text of the error.
    pub fn message(&self) -> (r: String)
        ensures
            r@ == self.spec_message(),
    {
        let mut out: String = String::new();
        match self {
            TspError::InvalidResponse(f) => {
                out.append("invalid timestamp response: ");
                let inner: String = f.message();
                out.append(inner.as_str());
            },
            TspError::TsaError { status, message } => {
                out.append("TSA error: status=");
                let text: String = status.to_text();
                out.append(text.as_str());
                match message {
                    Some(m) => {
                        out.append(", message=");
                        out.append(m.as_str());
                    },
                    None => {},
                }
            },
            TspError::VerificationFailed(f) => {
                out.append("timestamp verification failed: ");
                let inner: String = f.message();
                out.append(inner.as_str());
            },
            TspError::Crypto => out.append("cryptographic backend failure"),
        }
        assert(out@ =~= self.spec_message());
        out
    }
}

} // verus!
