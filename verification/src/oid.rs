//! Object identifiers.

use vstd::prelude::*;

use crate::asn1::{is_oid, oid_to_text};
use crate::bytes::to_vec;
#[allow(unused_imports)]
use crate::asn1::{oid_text, oid_valid};

verus! {

/// An object identifier, as the body of its encoding.
#[derive(Debug)]
pub struct Oid {
    body: Vec<u8>,
}

impl View for Oid {
    type V = Seq<u8>;

    closed spec fn view(&self) -> Seq<u8> {
        self.body@
    }
}

impl Oid {
    #[verifier::type_invariant]
    spec fn well_formed(self) -> bool {
        oid_valid(self.body@)
    }

    /// The object identifier with the given body, where the body is one.
    pub fn from_bytes(body: &[u8]) -> (r: Option<Oid>)
        ensures
            r is Some <==> oid_valid(body@),
            r matches Some(oid) ==> oid@ == body@,
    {
        if is_oid(body) {
            Some(Oid { body: to_vec(body) })
        } else {
            None
        }
    }

    /// The body of the encoding.
    pub fn as_bytes(&self) -> (r: &[u8])
        ensures
            r@ == self@,
    {
        self.body.as_slice()
    }

    /// The dotted text.
    pub fn to_text(&self) -> (r: String)
        ensures
            r@ == oid_text(self@),
    {
        proof {
            use_type_invariant(self);
        }
        oid_to_text(self.body.as_slice())
    }
}

} // verus!
