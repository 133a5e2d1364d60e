//! Certification-path validation as the caller supplies it.
//!
//! Which anchors are trusted is the caller's affair: a [`TrustStore`] holds the
//! caller's validation procedure, and the library states exactly which path is
//! put to it, for which time, role and signature policy.

use vstd::prelude::*;

use crate::cert::Certificate;
use crate::crypto::verify::SignaturePolicy;
use crate::error::TrustError;
use crate::ltv::status::CertRole;
use crate::time::CivilTime;
#[allow(unused_imports)]
use crate::cert::{certificate_views, CertificateView};

verus! {

/// A path to validate.
#[derive(Debug)]
pub struct PathQuery {
    /// The path, the certificate in question first.
    pub chain: Vec<Certificate>,
    /// The time of the validation.
    pub at: CivilTime,
    /// Whether the time lies a fraction of a second after `at`.
    pub positive_fraction: bool,
    /// The role of the first certificate.
    pub role: CertRole,
    /// The signatures that are admitted on the path.
    pub policy: SignaturePolicy,
}

/// What a [`PathQuery`] holds.
#[verifier::ext_equal]
pub struct PathQueryView {
    pub chain: Seq<CertificateView>,
    pub at: CivilTime,
    pub positive_fraction: bool,
    pub role: CertRole,
    pub legacy: bool,
}

impl View for PathQuery {
    type V = PathQueryView;

    open spec fn view(&self) -> PathQueryView {
        PathQueryView {
            chain: certificate_views(self.chain@),
            at: self.at,
            positive_fraction: self.positive_fraction,
            role: self.role,
            legacy: self.policy.legacy(),
        }
    }
}

/// A question to a trust store.
#[derive(Debug)]
pub enum TrustQuery {
    /// Is the path valid?
    Path(PathQuery),
    /// Does `subject` meet the name constraints of `issuer`?
    Names { issuer: Certificate, subject: Certificate },
}

/// What a [`TrustQuery`] holds.
#[verifier::ext_equal]
pub enum TrustQueryView {
    Path(PathQueryView),
    Names { issuer: CertificateView, subject: CertificateView },
}

impl View for TrustQuery {
    type V = TrustQueryView;

    open spec fn view(&self) -> TrustQueryView {
        match *self {
            TrustQuery::Path(q) => TrustQueryView::Path(q@),
            TrustQuery::Names { issuer, subject } => TrustQueryView::Names {
                issuer: issuer@,
                subject: subject@,
            },
        }
    }
}

/// The caller's trust: the signatures that it admits, and its procedure for
/// answering questions.
pub struct TrustStore<P: Fn(&TrustQuery) -> Result<(), TrustError>> {
    /// The signatures that the store admits.
    pub policy: SignaturePolicy,
    /// Answers a question.
    pub validate: P,
}

impl<P: Fn(&TrustQuery) -> Result<(), TrustError>> TrustStore<P> {
    /// The procedure accepts every question.
    pub open spec fn total(self) -> bool {
        forall|q: TrustQuery| call_requires(self.validate, (&q,))
    }

    /// The procedure answers equal questions alike.
    pub open spec fn consistent(self) -> bool {
        forall|p: TrustQuery, q: TrustQuery, a: Result<(), TrustError>, b: Result<(), TrustError>|
            p@ == q@ && #[trigger] call_ensures(self.validate, (&p,), a) && #[trigger] call_ensures(
                self.validate,
                (&q,),
                b,
            ) ==> a == b
    }

    /// `verdict` is an answer of the procedure to `query`.
    pub open spec fn answers(self, query: TrustQueryView, verdict: Result<(), TrustError>) -> bool {
        exists|q: TrustQuery| q@ == query && #[trigger] call_ensures(self.validate, (&q,), verdict)
    }

    /// The signatures that the store admits.
    pub fn signature_policy(&self) -> (r: SignaturePolicy)
        ensures
            r == self.policy,
    {
        self.policy
    }

    /// Puts a question to the procedure.
    fn ask(&self, query: &TrustQuery) -> (r: Result<(), TrustError>)
        requires
            self.total(),
        ensures
            self.answers(query@, r),
    {
        let validate = &self.validate;
        let r = validate(query);
        assert(call_ensures(self.validate, (query,), r));
        r
    }

    /// Asks whether a path is valid.
    pub fn verify_path(&self, query: PathQuery) -> (r: Result<(), TrustError>)
        requires
            self.total(),
        ensures
            self.answers(TrustQueryView::Path(query@), r),
    {
        self.ask(&TrustQuery::Path(query))
    }

    /// Asks whether a certificate meets the name constraints of its issuer.
    pub fn verify_names(&self, issuer: &Certificate, subject: &Certificate) -> (r: Result<
        (),
        TrustError,
    >)
        requires
            self.total(),
        ensures
            self.answers(TrustQueryView::Names { issuer: issuer@, subject: subject@ }, r),
    {
        self.ask(&TrustQuery::Names { issuer: issuer.duplicate(), subject: subject.duplicate() })
    }
}

} // verus!
