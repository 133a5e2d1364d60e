//! Revocation evidence.

pub mod ocsp;
pub mod status;
