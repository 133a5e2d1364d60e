//! RFC 3161 timestamping.

pub mod chain;
pub mod cms;
pub mod ess;
pub mod field;
pub mod laws;
pub mod response;
pub mod signer;
pub mod status;
pub mod token_laws;
pub mod tst_info;
pub mod verify;
