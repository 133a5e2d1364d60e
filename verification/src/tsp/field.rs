//! Reading one element of a timestamp structure.

use vstd::prelude::*;

use crate::asn1::any_contents;
use crate::bytes::head;
use crate::der_utils::parse_tlv_with_rest;
use crate::error::{Fault, TspError};
#[allow(unused_imports)]
use crate::agrees;
#[allow(unused_imports)]
use crate::asn1::canonical_contents;
#[allow(unused_imports)]
use crate::der_utils::{lemma_tlv_shrinks, tlv, tlv_bytes};

verus! {

/// The contents of the element at the start of `s`, which must carry `tag` and be
/// canonical, and what follows it.
#[verifier::opaque]
pub open spec fn tst_field(s: Seq<u8>, tag: u8, context: &'static str) -> Result<
    (Seq<u8>, Seq<u8>),
    TspError,
> {
    match tlv(s) {
        Err(e) => Err(TspError::InvalidResponse(Fault::Der(context, e))),
        Ok((t, _, rest)) => if t != tag {
            Err(TspError::InvalidResponse(Fault::Expected(context, tag, t)))
        } else {
            match canonical_contents(s.take(s.len() - rest.len())) {
                None => Err(TspError::InvalidResponse(Fault::Malformed(context))),
                Some(contents) => Ok((contents, rest)),
            }
        },
    }
}

/// Reads the element at the start of `input`: it must carry `expected_tag` and be
/// canonical. Returns its contents and what follows it.
pub fn parse_tst_field<'a>(input: &'a [u8], expected_tag: u8, context: &'static str) -> (r: Result<
    (&'a [u8], &'a [u8]),
    TspError,
>)
    ensures
        agrees(r, tst_field(input@, expected_tag, context)),
{
    proof {
        reveal(tst_field);
        lemma_tlv_shrinks(input@);
    }
    let (tag, _, rest) = match parse_tlv_with_rest(input) {
        Err(e) => return Err(TspError::InvalidResponse(Fault::Der(context, e))),
        Ok(v) => v,
    };
    if tag != expected_tag {
        return Err(TspError::InvalidResponse(Fault::Expected(context, expected_tag, tag)));
    }
    match any_contents(head(input, input.len() - rest.len())) {
        None => Err(TspError::InvalidResponse(Fault::Malformed(context))),
        Some(contents) => Ok((contents, rest)),
    }
}

/// What follows an element is shorter than the input, and so are its contents.
pub proof fn lemma_field_shrinks(s: Seq<u8>, tag: u8, context: &'static str)
    ensures
        tst_field(s, tag, context) matches Ok((contents, rest)) ==> rest.len() < s.len()
            && contents.len() < s.len() && s.len() > 0 && s[0] == tag,
{
    reveal(tst_field);
    lemma_tlv_shrinks(s);
    match tlv(s) {
        Ok((_, _, rest)) => {
            lemma_tlv_shrinks(s.take(s.len() - rest.len()));
        },
        Err(_) => {},
    }
}

/// A field that cannot be read makes a response invalid.
pub proof fn lemma_field_errors()
    ensures
        forall|s: Seq<u8>, tag: u8, context: &'static str|
            #[trigger] tst_field(s, tag, context) matches Err(e) ==> e is InvalidResponse,
{
    reveal(tst_field);
}

/// A field that was written with a known tag is read back, whatever follows it.
pub proof fn law_field_round_trip(tag: u8, contents: Seq<u8>, after: Seq<u8>, context: &'static str)
    requires
        crate::asn1::known_tag(tag),
        tlv_bytes(tag, contents).len() <= crate::asn1::MAX_DER_LENGTH,
    ensures
        tst_field(tlv_bytes(tag, contents) + after, tag, context) == Ok::<
            (Seq<u8>, Seq<u8>),
            TspError,
        >((contents, after)),
{
    reveal(tst_field);
    let element = tlv_bytes(tag, contents);
    crate::der_utils::law_tlv_round_trip(tag, contents, after);
    crate::der_utils::law_tlv_round_trip(tag, contents, Seq::empty());
    let s = element + after;
    assert(s.take(s.len() - after.len()) =~= element);
    assert(element + Seq::<u8>::empty() =~= element);
}

} // verus!
