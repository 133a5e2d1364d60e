//! The status that a timestamping authority answers with.

use vstd::prelude::*;

use crate::text::push_decimal;
#[allow(unused_imports)]
use crate::text::decimal_text;

verus! {

/// PKIStatus of a TimeStampResp.
#[derive(Debug, Clone, Copy, PartialEq, Eq, Structural)]
pub enum PkiStatus {
    /// A token as requested.
    Granted,
    /// A token with modifications.
    GrantedWithMods,
    /// The request was rejected.
    Rejection,
    /// The request is pending.
    Waiting,
    /// A revocation is imminent.
    RevocationWarning,
    /// A revocation has happened.
    RevocationNotification,
    /// A status outside the standard.
    Unknown(u64),
}

/// The status with a given code.
pub open spec fn status_of_code(v: u64) -> PkiStatus {
    match v {
        0 => PkiStatus::Granted,
        1 => PkiStatus::GrantedWithMods,
        2 => PkiStatus::Rejection,
        3 => PkiStatus::Waiting,
        4 => PkiStatus::RevocationWarning,
        5 => PkiStatus::RevocationNotification,
        _ => PkiStatus::Unknown(v),
    }
}

impl PkiStatus {
    /// The status with a given code.
    pub fn from_u64(v: u64) -> (r: PkiStatus)
        ensures
            r == status_of_code(v),
    {
        match v {
            0 => PkiStatus::Granted,
            1 => PkiStatus::GrantedWithMods,
            2 => PkiStatus::Rejection,
            3 => PkiStatus::Waiting,
            4 => PkiStatus::RevocationWarning,
            5 => PkiStatus::RevocationNotification,
            _ => PkiStatus::Unknown(v),
        }
    }

    /// Whether the status comes with a token.
    pub open spec fn success(self) -> bool {
        self is Granted || self is GrantedWithMods
    }

    /// Whether the status comes with a token.
    pub fn is_success(&self) -> (r: bool)
        ensures
            r == self.success(),
    {
        match self {
            PkiStatus::Granted | PkiStatus::GrantedWithMods => true,
            _ => false,
        }
    }

    /// The text of the status.
    pub open spec fn spec_text(self) -> Seq<char> {
        match self {
            PkiStatus::Granted => "granted (0)"@,
            PkiStatus::GrantedWithMods => "grantedWithMods (1)"@,
            PkiStatus::Rejection => "rejection (2)"@,
            PkiStatus::Waiting => "waiting (3)"@,
            PkiStatus::RevocationWarning => "revocationWarning (4)"@,
            PkiStatus::RevocationNotification => "revocationNotification (5)"@,
            PkiStatus::Unknown(v) => "unknown ("@ + decimal_text(v as nat) + ")"@,
        }
    }

    /// The text of the status.
    pub fn to_text(&self) -> (r: String)
        ensures
            r@ == self.spec_text(),
    {
        let mut out: String = String::new();
        match self {
            PkiStatus::Granted => out.append("granted (0)"),
            PkiStatus::GrantedWithMods => out.append("grantedWithMods (1)"),
            PkiStatus::Rejection => out.append("rejection (2)"),
            PkiStatus::Waiting => out.append("waiting (3)"),
            PkiStatus::RevocationWarning => out.append("revocationWarning (4)"),
            PkiStatus::RevocationNotification => out.append("revocationNotification (5)"),
            PkiStatus::Unknown(v) => {
                out.append("unknown (");
                push_decimal(&mut out, *v);
                out.append(")");
            },
        }
        assert(out@ =~= self.spec_text());
        out
    }
}

/// A status succeeds exactly when its code is 0 or 1.
pub proof fn law_success_codes(v: u64)
    ensures
        status_of_code(v).success() <==> v <= 1,
{
}

} // verus!
