//! The Online Certificate Status Protocol.

pub mod aia;
pub mod check;
pub mod check_laws;
pub mod fetch;
pub mod laws;
pub mod request;
pub mod responder;
pub mod responder_laws;
pub mod response;
