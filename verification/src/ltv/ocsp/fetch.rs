//! The decisions of fetching an OCSP response: which URLs are tried, and which
//! bodies are accepted.

use vstd::prelude::*;

use crate::cert::Certificate;
use crate::error::{Fault, LtvError};
use crate::ltv::ocsp::aia::extract_ocsp_urls;
use crate::ltv::ocsp::request::{build_ocsp_request, build_ocsp_request_with_nonce};
use crate::ltv::ocsp::response::validate_ocsp_response_status;
#[allow(unused_imports)]
use crate::cert::{extension_list, CertificateView};
#[allow(unused_imports)]
use crate::ltv::ocsp::aia::{certificate_urls, text_views, ID_AD_OCSP};
#[allow(unused_imports)]
use crate::ltv::ocsp::request::{cert_id, request_bytes, request_bytes_with_nonce, NONCE_SIZE};
#[allow(unused_imports)]
use crate::ltv::ocsp::response::{ocsp, response_status};

verus! {

/// The greatest size of a body, unless another is set.
pub const MAX_BODY_SIZE: usize = 10_485_760;

/// A body that is received in pieces, up to a greatest size.
#[derive(Debug)]
pub struct BoundedBody {
    max: usize,
    bytes: Vec<u8>,
}

impl BoundedBody {
    /// The body keeps its limit.
    #[verifier::type_invariant]
    spec fn within(self) -> bool {
        self.bytes@.len() <= self.max
    }

    /// The greatest size.
    pub closed spec fn limit(self) -> nat {
        self.max as nat
    }

    /// What was received.
    pub closed spec fn received(self) -> Seq<u8> {
        self.bytes@
    }

    /// Starts a body. A length that is announced must be within the limit.
    pub fn new(announced: Option<u64>, max: usize) -> (r: Result<BoundedBody, LtvError>)
        ensures
            match r {
                Ok(body) => (announced matches Some(len) ==> len <= max) && body.limit() == max
                    && body.received() == Seq::<u8>::empty(),
                Err(e) => announced matches Some(len) && len > max && e == LtvError::Ocsp(
                    Fault::Text("OCSP response exceeds max body size"),
                ),
            },
    {
        match announced {
            Some(len) => {
                if len > max as u64 {
                    return Err(
                        LtvError::Ocsp(Fault::Text("OCSP response exceeds max body size")),
                    );
                }
            },
            None => {},
        }
        Ok(BoundedBody { max, bytes: Vec::new() })
    }

    /// Takes the next piece of the body, where it fits within the limit.
    pub fn push(&mut self, chunk: &[u8]) -> (r: Result<(), LtvError>)
        ensures
            final(self).limit() == old(self).limit(),
            if old(self).received().len() + chunk@.len() <= old(self).limit() {
                r == Ok::<(), LtvError>(()) && final(self).received() == old(self).received()
                    + chunk@
            } else {
                r == ocsp::<()>(Fault::Text("OCSP response exceeds max body size"))
                    && final(self).received() == old(self).received()
            },
    {
        proof {
            use_type_invariant(&*self);
        }
        if chunk.len() > self.max - self.bytes.len() {
            return Err(LtvError::Ocsp(Fault::Text("OCSP response exceeds max body size")));
        }
        let mut bytes: Vec<u8> = Vec::new();
        bytes.extend_from_slice(self.bytes.as_slice());
        bytes.extend_from_slice(chunk);
        assert(bytes@ =~= self.bytes@ + chunk@);
        self.bytes = bytes;
        Ok(())
    }

    /// Ends a body: what was received, whatever it is.
    pub fn into_bytes(self) -> (r: Vec<u8>)
        ensures
            r@ == self.received(),
            r@.len() <= self.limit(),
    {
        proof {
            use_type_invariant(&self);
        }
        self.bytes
    }
}

/// A body is an OCSPResponse that is successful.
pub open spec fn accepted_body(bytes: Seq<u8>) -> Result<(), LtvError> {
    if bytes.len() == 0 {
        ocsp(Fault::Text("OCSP responder returned empty response"))
    } else if bytes[0] != 0x30 {
        ocsp(Fault::Text("OCSP response does not appear to be DER-encoded"))
    } else {
        response_status(bytes)
    }
}

/// Checks that a body is an OCSPResponse that is successful.
pub fn validate_body(bytes: &[u8]) -> (r: Result<(), LtvError>)
    ensures
        r == accepted_body(bytes@),
{
    if bytes.len() == 0 {
        return Err(LtvError::Ocsp(Fault::Text("OCSP responder returned empty response")));
    }
    if bytes[0] != 0x30 {
        return Err(
            LtvError::Ocsp(Fault::Text("OCSP response does not appear to be DER-encoded")),
        );
    }
    validate_ocsp_response_status(bytes)
}

/// Why a responder gave no response.
#[derive(Debug, Clone)]
pub enum FetchError {
    /// The exchange did not come about, and why.
    Exchange(String),
    /// What the responder answered is not acceptable.
    Answer(LtvError),
}

impl FetchError {
    /// The text of the error.
    pub open spec fn spec_message(self) -> Seq<char> {
        match self {
            FetchError::Exchange(reason) => "OCSP error: "@ + reason@,
            FetchError::Answer(e) => e.spec_message(),
        }
    }

    /// The text of the error.
    pub fn message(&self) -> (r: String)
        ensures
            r@ == self.spec_message(),
    {
        match self {
            FetchError::Exchange(reason) => {
                let mut out: String = String::new();
                out.append("OCSP error: ");
                out.append(reason.as_str());
                assert(out@ =~= self.spec_message());
                out
            },
            FetchError::Answer(e) => e.message(),
        }
    }
}

/// The URLs of the responders of a certificate, which are tried in turn.
#[derive(Debug)]
pub struct ResponderQueue {
    urls: Vec<String>,
    tried: usize,
    last_error: Option<FetchError>,
}

impl ResponderQueue {
    /// No more URLs were tried than there are.
    #[verifier::type_invariant]
    spec fn within(self) -> bool {
        self.tried <= self.urls@.len()
    }

    /// All URLs, in the order in which they are tried.
    pub closed spec fn urls(self) -> Seq<Seq<char>> {
        text_views(self.urls@)
    }

    /// How many of them failed.
    pub closed spec fn tried(self) -> nat {
        self.tried as nat
    }

    /// The error of the last one that failed.
    pub closed spec fn last_error(self) -> Option<FetchError> {
        self.last_error
    }

    /// Starts with the URLs of a certificate. There must be one.
    pub fn new(cert: &Certificate) -> (r: Result<ResponderQueue, LtvError>)
        ensures
            match r {
                Ok(queue) => responder_urls(cert@).len() > 0 && queue.urls() == responder_urls(cert@)
                    && queue.tried() == 0 && queue.last_error() is None,
                Err(e) => responder_urls(cert@).len() == 0 && e == LtvError::Ocsp(
                    Fault::Text("no OCSP responder URL in certificate AIA extension"),
                ),
            },
    {
        let urls: Vec<String> = extract_ocsp_urls(cert);
        assert(text_views(urls@).len() == urls@.len());
        if urls.len() == 0 {
            return Err(
                LtvError::Ocsp(
                    Fault::Text("no OCSP responder URL in certificate AIA extension"),
                ),
            );
        }
        Ok(ResponderQueue { urls, tried: 0, last_error: None })
    }

    /// The URL to try next.
    pub fn next(&self) -> (r: Option<&str>)
        ensures
            match r {
                Some(url) => self.tried() < self.urls().len() && url@ == self.urls()[self.tried() as int],
                None => self.tried() >= self.urls().len(),
            },
    {
        if self.tried < self.urls.len() {
            assert(text_views(self.urls@)[self.tried as int] == self.urls@[self.tried as int]@);
            Some(self.urls[self.tried].as_str())
        } else {
            None
        }
    }

    /// Notes that the URL that was tried failed.
    pub fn failed(&mut self, error: FetchError)
        ensures
            final(self).urls() == old(self).urls(),
            final(self).last_error() == Some(error),
            final(self).tried() == (if old(self).tried() < old(self).urls().len() {
                old(self).tried() + 1
            } else {
                old(self).tried()
            }),
    {
        proof {
            use_type_invariant(&*self);
        }
        assert(text_views(self.urls@).len() == self.urls@.len());
        if self.tried < self.urls.len() {
            self.tried = self.tried + 1;
        }
        self.last_error = Some(error);
    }

    /// The error of a fetch in which every URL failed: the last one.
    pub fn error(self) -> (r: FetchError)
        ensures
            r == (match self.last_error() {
                Some(e) => e,
                None => FetchError::Answer(
                    LtvError::Ocsp(Fault::Text("all OCSP responder URLs failed")),
                ),
            }),
    {
        match self.last_error {
            Some(e) => e,
            None => FetchError::Answer(
                LtvError::Ocsp(Fault::Text("all OCSP responder URLs failed")),
            ),
        }
    }
}

/// The URLs of the responders of a certificate.
pub open spec fn responder_urls(cert: CertificateView) -> Seq<Seq<char>> {
    certificate_urls(extension_list(cert), ID_AD_OCSP@, 0, Seq::empty())
}

/// Prepares a fetch: the URLs to try and the request to send.
pub fn prepare_fetch(cert: &Certificate, issuer: &Certificate) -> (r: Result<
    (ResponderQueue, Vec<u8>),
    LtvError,
>)
    ensures
        match r {
            Ok((queue, request)) => responder_urls(cert@).len() > 0 && queue.urls()
                == responder_urls(cert@) && queue.tried() == 0 && queue.last_error() is None && (
            cert_id(cert@, issuer@) matches Ok(id) && request@ == request_bytes(id)),
            Err(e) => if responder_urls(cert@).len() == 0 {
                e == LtvError::Ocsp(
                    Fault::Text("no OCSP responder URL in certificate AIA extension"),
                )
            } else {
                cert_id(cert@, issuer@) == Err::<Seq<u8>, LtvError>(e)
            },
        },
{
    let queue = ResponderQueue::new(cert)?;
    let request: Vec<u8> = build_ocsp_request(cert, issuer)?;
    Ok((queue, request))
}

/// Prepares a fetch with a fresh nonce: the URLs to try, the request to send, and
/// the nonce in it. It fails where there is no URL, or where the backend fails.
pub fn prepare_fetch_with_nonce(cert: &Certificate, issuer: &Certificate) -> (r: Result<
    (ResponderQueue, Vec<u8>, Vec<u8>),
    LtvError,
>)
    ensures
        match r {
            Ok((queue, request, nonce)) => responder_urls(cert@).len() > 0 && queue.urls()
                == responder_urls(cert@) && queue.tried() == 0 && queue.last_error() is None
                && nonce@.len() == NONCE_SIZE && (cert_id(cert@, issuer@) matches Ok(id) && request@
                == request_bytes_with_nonce(id, nonce@)),
            Err(e) => if responder_urls(cert@).len() == 0 {
                e == LtvError::Ocsp(
                    Fault::Text("no OCSP responder URL in certificate AIA extension"),
                )
            } else {
                e == LtvError::Crypto
            },
        },
{
    let queue = ResponderQueue::new(cert)?;
    let (request, nonce) = build_ocsp_request_with_nonce(cert, issuer)?;
    Ok((queue, request, nonce))
}

} // verus!
