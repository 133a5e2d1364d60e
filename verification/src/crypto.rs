//! Hash algorithms, randomness and signature checks.

pub mod algorithm;
pub mod laws;
pub mod verify;
