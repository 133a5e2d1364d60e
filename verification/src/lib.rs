//! Validation of RFC 3161 timestamps and of certificate revocation evidence.
//!
//! The crate parses and checks OCSP responses and timestamp tokens. Every
//! decision is a function with a contract stated over byte sequences; work that
//! belongs to other crates (certificate decoding, hashing, signature checks) is
//! reached through small functions whose contracts name its results.

use vstd::prelude::*;

pub mod asn1;
pub mod bytes;
pub mod cert;
pub mod crypto;
pub mod der_utils;
pub mod error;
pub mod laws;
pub mod ltv;
pub mod net;
pub mod oid;
pub mod text;
pub mod time;
pub mod trust;
pub mod tsp;

verus! {

/// A result agrees with its model: the same error, or a value whose view is the
/// modelled value.
pub open spec fn agrees<T: View, E>(r: Result<T, E>, model: Result<T::V, E>) -> bool {
    match (r, model) {
        (Ok(v), Ok(w)) => v@ == w,
        (Err(e), Err(f)) => e == f,
        _ => false,
    }
}

/// An option agrees with its model when both are absent or the view of the
/// value is the modelled value.
pub open spec fn agrees_opt<T: View>(r: Option<T>, model: Option<T::V>) -> bool {
    match (r, model) {
        (Some(v), Some(w)) => v@ == w,
        (None, None) => true,
        _ => false,
    }
}

/// The view of an optional value.
pub open spec fn opt_view<T: View>(o: Option<T>) -> Option<T::V> {
    match o {
        Some(v) => Some(v@),
        None => None,
    }
}

} // verus!
