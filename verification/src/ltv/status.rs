//! Revocation statuses and reasons.

use vstd::prelude::*;

use crate::time::UtcTime;

verus! {

/// The name of an OCSPResponseStatus code.
pub open spec fn ocsp_status_name(status: u8) -> &'static str {
    match status {
        0 => "successful",
        1 => "malformedRequest",
        2 => "internalError",
        3 => "tryLater",
        5 => "sigRequired",
        6 => "unauthorized",
        _ => "unknown",
    }
}

/// The name of an OCSPResponseStatus code.
pub fn ocsp_response_status_name(status: u8) -> (r: &'static str)
    ensures
        r == ocsp_status_name(status),
{
    match status {
        0 => "successful",
        1 => "malformedRequest",
        2 => "internalError",
        3 => "tryLater",
        5 => "sigRequired",
        6 => "unauthorized",
        _ => "unknown",
    }
}

/// CRLReason of a revoked certificate.
#[derive(Debug, Clone, Copy, PartialEq, Eq, Structural)]
pub enum RevocationReason {
    Unspecified,
    KeyCompromise,
    CaCompromise,
    AffiliationChanged,
    Superseded,
    CessationOfOperation,
    CertificateHold,
    RemoveFromCrl,
    PrivilegeWithdrawn,
    AaCompromise,
}

/// The reason with a given code; codes outside the standard give no reason.
pub open spec fn reason_of_code(code: u8) -> RevocationReason {
    match code {
        1 => RevocationReason::KeyCompromise,
        2 => RevocationReason::CaCompromise,
        3 => RevocationReason::AffiliationChanged,
        4 => RevocationReason::Superseded,
        5 => RevocationReason::CessationOfOperation,
        6 => RevocationReason::CertificateHold,
        8 => RevocationReason::RemoveFromCrl,
        9 => RevocationReason::PrivilegeWithdrawn,
        10 => RevocationReason::AaCompromise,
        _ => RevocationReason::Unspecified,
    }
}

/// The code of a reason.
pub open spec fn code_of_reason(reason: RevocationReason) -> u8 {
    match reason {
        RevocationReason::Unspecified => 0,
        RevocationReason::KeyCompromise => 1,
        RevocationReason::CaCompromise => 2,
        RevocationReason::AffiliationChanged => 3,
        RevocationReason::Superseded => 4,
        RevocationReason::CessationOfOperation => 5,
        RevocationReason::CertificateHold => 6,
        RevocationReason::RemoveFromCrl => 8,
        RevocationReason::PrivilegeWithdrawn => 9,
        RevocationReason::AaCompromise => 10,
    }
}

impl RevocationReason {
    /// The reason with a given code.
    pub fn from_code(code: u8) -> (r: RevocationReason)
        ensures
            r == reason_of_code(code),
    {
        match code {
            1 => RevocationReason::KeyCompromise,
            2 => RevocationReason::CaCompromise,
            3 => RevocationReason::AffiliationChanged,
            4 => RevocationReason::Superseded,
            5 => RevocationReason::CessationOfOperation,
            6 => RevocationReason::CertificateHold,
            8 => RevocationReason::RemoveFromCrl,
            9 => RevocationReason::PrivilegeWithdrawn,
            10 => RevocationReason::AaCompromise,
            _ => RevocationReason::Unspecified,
        }
    }

    /// The code of the reason.
    pub fn code(&self) -> (r: u8)
        ensures
            r == code_of_reason(*self),
    {
        match self {
            RevocationReason::Unspecified => 0,
            RevocationReason::KeyCompromise => 1,
            RevocationReason::CaCompromise => 2,
            RevocationReason::AffiliationChanged => 3,
            RevocationReason::Superseded => 4,
            RevocationReason::CessationOfOperation => 5,
            RevocationReason::CertificateHold => 6,
            RevocationReason::RemoveFromCrl => 8,
            RevocationReason::PrivilegeWithdrawn => 9,
            RevocationReason::AaCompromise => 10,
        }
    }
}

/// A reason is the reason with its own code.
pub proof fn law_reason_codes(reason: RevocationReason)
    ensures
        reason_of_code(code_of_reason(reason)) == reason,
{
}

/// Where revocation evidence comes from.
#[derive(Debug, Clone, Copy, PartialEq, Eq, Structural)]
pub enum RevocationSource {
    Ocsp,
    Crl,
}

/// The revocation status of a certificate.
#[derive(Debug, Clone, Copy)]
pub enum ValidationStatus {
    /// Not revoked at the time of the check.
    Valid { source: RevocationSource, checked_at: UtcTime },
    /// Revoked.
    Revoked { source: RevocationSource, reason: RevocationReason, revocation_time: UtcTime },
    /// Not known, and why.
    Unknown { reason: &'static str },
}

impl ValidationStatus {
    /// Whether the certificate is not revoked.
    pub fn is_valid(&self) -> (r: bool)
        ensures
            r == (*self is Valid),
    {
        match self {
            ValidationStatus::Valid { .. } => true,
            _ => false,
        }
    }

    /// Whether the certificate is revoked.
    pub fn is_revoked(&self) -> (r: bool)
        ensures
            r == (*self is Revoked),
    {
        match self {
            ValidationStatus::Revoked { .. } => true,
            _ => false,
        }
    }

    /// Whether the status is not known.
    pub fn is_unknown(&self) -> (r: bool)
        ensures
            r == (*self is Unknown),
    {
        match self {
            ValidationStatus::Unknown { .. } => true,
            _ => false,
        }
    }
}

/// The role of the first certificate of a path.
#[derive(Debug, Clone, Copy, PartialEq, Eq, Structural)]
pub enum CertRole {
    /// A certification authority below the trust anchor.
    IntermediateCa,
    /// A delegated OCSP responder.
    OcspResponder,
    /// A timestamping authority.
    TimestampSigner,
}

} // verus!
