//! Tag-length-value primitives of the Distinguished Encoding Rules.
//!
//! Reading accepts any definite length of up to four octets; writing always
//! produces the shortest length.

use vstd::prelude::*;

use crate::bytes::{bytes_equal, push_be, tail, to_vec};
#[allow(unused_imports)]
use crate::agrees;
#[allow(unused_imports)]
use crate::bytes::{be_bytes, be_value, concat, lemma_be_len, lemma_be_round_trip, lemma_be_value_push, pow256, without_leading_zeros};

verus! {

/// Why a tag-length-value element could not be read.
#[derive(Debug, Clone, Copy, PartialEq, Eq, Structural)]
pub enum DerError {
    /// The input ends before the element does.
    Truncated,
    /// The length has the indefinite form.
    IndefiniteLength,
    /// The length is written with more than four octets.
    LengthTooLarge,
}

impl DerError {
    /// The text of the error.
    pub open spec fn spec_text(self) -> &'static str {
        match self {
            DerError::Truncated => "truncated DER element",
            DerError::IndefiniteLength => "indefinite DER length",
            DerError::LengthTooLarge => "DER length exceeds four octets",
        }
    }

    /// The text of the error.
    pub fn text(&self) -> (r: &'static str)
        ensures
            r == self.spec_text(),
    {
        match self {
            DerError::Truncated => "truncated DER element",
            DerError::IndefiniteLength => "indefinite DER length",
            DerError::LengthTooLarge => "DER length exceeds four octets",
        }
    }
}

/// The length at the start of `s`, and the number of octets it takes.
pub open spec fn der_length(s: Seq<u8>) -> Result<(usize, usize), DerError> {
    if s.len() == 0 {
        Err(DerError::Truncated)
    } else if s[0] < 0x80 {
        Ok((s[0] as usize, 1))
    } else if s[0] == 0x80 {
        Err(DerError::IndefiniteLength)
    } else if s[0] > 0x84 {
        Err(DerError::LengthTooLarge)
    } else if s.len() < 1 + (s[0] - 0x80) {
        Err(DerError::Truncated)
    } else {
        Ok((
            be_value(s.subrange(1, 1 + (s[0] - 0x80))) as usize,
            (1 + (s[0] - 0x80)) as usize,
        ))
    }
}

/// The element at the start of `s`: its tag, its body, and what follows it.
pub open spec fn tlv(s: Seq<u8>) -> Result<(u8, Seq<u8>, Seq<u8>), DerError> {
    if s.len() == 0 {
        Err(DerError::Truncated)
    } else {
        match der_length(s.skip(1)) {
            Err(e) => Err(e),
            Ok((len, octets)) => if s.len() < 1 + octets + len {
                Err(DerError::Truncated)
            } else {
                Ok((
                    s[0],
                    s.subrange(1 + octets, 1 + octets + len),
                    s.skip(1 + octets + len),
                ))
            },
        }
    }
}

/// The shortest form of the length `n`.
pub open spec fn der_length_bytes(n: nat) -> Seq<u8> {
    if n < 0x80 {
        seq![n as u8]
    } else {
        seq![(0x80 + be_bytes(n).len()) as u8] + be_bytes(n)
    }
}

/// The element with the given tag and body.
pub open spec fn tlv_bytes(tag: u8, body: Seq<u8>) -> Seq<u8> {
    seq![tag] + der_length_bytes(body.len()) + body
}

/// The contents of an INTEGER that holds the number `n`: the shortest form,
/// with a zero octet in front where the first octet would read as a sign.
pub open spec fn integer_contents(n: nat) -> Seq<u8> {
    if be_bytes(n)[0] >= 0x80 {
        seq![0u8] + be_bytes(n)
    } else {
        be_bytes(n)
    }
}

/// The body of the first element of `s` that carries `tag`, where the elements
/// before it can be read.
pub open spec fn tagged_value(s: Seq<u8>, tag: u8) -> Option<Seq<u8>>
    decreases s.len(),
{
    if s.len() == 0 {
        None
    } else {
        proof {
            lemma_tlv_shrinks(s);
        }
        match tlv(s) {
            Err(_) => None,
            Ok((t, body, rest)) => if t == tag {
                Some(body)
            } else {
                tagged_value(rest, tag)
            },
        }
    }
}

/// An element takes at least two octets, and its body and rest are parts of the input.
pub proof fn lemma_tlv_shrinks(s: Seq<u8>)
    ensures
        tlv(s) matches Ok((t, body, rest)) ==> rest.len() + 2 <= s.len() && body.len() + 2
            <= s.len() && rest == s.skip(s.len() - rest.len()) && t == s[0],
{
}

/// Reads the length at the start of `data`: its value, and the octets it takes.
pub fn parse_der_length(data: &[u8]) -> (r: Result<(usize, usize), DerError>)
    ensures
        r == der_length(data@),
{
    if data.len() == 0 {
        return Err(DerError::Truncated);
    }
    let first: u8 = data[0];
    if first < 0x80 {
        return Ok((first as usize, 1));
    }
    if first == 0x80 {
        return Err(DerError::IndefiniteLength);
    }
    if first > 0x84 {
        return Err(DerError::LengthTooLarge);
    }
    let count: usize = (first - 0x80) as usize;
    if data.len() - 1 < count {
        return Err(DerError::Truncated);
    }
    let mut value: u64 = 0;
    let mut i: usize = 0;
    assert(data@.subrange(1, 1) =~= Seq::<u8>::empty());
    while i < count
        invariant
            i <= count <= 4,
            count < data.len(),
            value == be_value(data@.subrange(1, 1 + i)),
            i == 0 ==> value == 0,
            i == 1 ==> value < 0x100,
            i == 2 ==> value < 0x1_0000,
            i == 3 ==> value < 0x100_0000,
            i == 4 ==> value < 0x1_0000_0000,
        decreases count - i,
    {
        let b: u8 = data[1 + i];
        proof {
            lemma_be_value_push(data@.subrange(1, 1 + i), b);
            assert(data@.subrange(1, 1 + i).push(b) =~= data@.subrange(1, 1 + i + 1));
        }
        value = value * 256 + b as u64;
        i += 1;
    }
    Ok((value as usize, 1 + count))
}

/// Reads the element at the start of `data`: its tag, its body, and what follows it.
pub fn parse_tlv_with_rest(data: &[u8]) -> (r: Result<(u8, &[u8], &[u8]), DerError>)
    ensures
        agrees(r, tlv(data@)),
{
    if data.len() == 0 {
        return Err(DerError::Truncated);
    }
    let (len, octets) = match parse_der_length(tail(data, 1)) {
        Err(e) => return Err(e),
        Ok(v) => v,
    };
    proof {
        lemma_length_fits(data@.skip(1));
    }
    if data.len() - 1 - octets < len {
        return Err(DerError::Truncated);
    }
    let start: usize = 1 + octets;
    let body = vstd::slice::slice_subrange(data, start, start + len);
    let rest = tail(data, start + len);
    Ok((data[0], body, rest))
}

proof fn lemma_length_fits(s: Seq<u8>)
    ensures
        der_length(s) matches Ok((_, octets)) ==> 1 <= octets <= s.len(),
{
}

/// Reads the element at the start of `data`, whatever follows it: its tag and its body.
pub fn parse_tlv(data: &[u8]) -> (r: Result<(u8, Vec<u8>), DerError>)
    ensures
        agrees(r, first_element(data@)),
{
    match parse_tlv_with_rest(data) {
        Err(e) => Err(e),
        Ok((tag, body, _)) => Ok((tag, to_vec(body))),
    }
}

/// The tag and the body of the element at the start of `s`.
pub open spec fn first_element(s: Seq<u8>) -> Result<(u8, Seq<u8>), DerError> {
    match tlv(s) {
        Err(e) => Err(e),
        Ok((tag, body, _)) => Ok((tag, body)),
    }
}

/// Appends the shortest form of the length `len`.
pub fn encode_der_length(buf: &mut Vec<u8>, len: usize)
    ensures
        final(buf)@ == old(buf)@ + der_length_bytes(len as nat),
{
    if len < 0x80 {
        buf.push(len as u8);
        assert(buf@ =~= old(buf)@ + der_length_bytes(len as nat));
        return;
    }
    let mut octets: Vec<u8> = Vec::new();
    push_be(&mut octets, len as u64);
    proof {
        lemma_be_len_u64(len as u64);
        assert(octets@ =~= be_bytes(len as nat));
    }
    buf.push(0x80 + octets.len() as u8);
    buf.extend_from_slice(octets.as_slice());
    assert(buf@ =~= old(buf)@ + der_length_bytes(len as nat));
}

/// The number of octets that a number takes.
pub proof fn lemma_be_len_u64(n: u64)
    ensures
        1 <= be_bytes(n as nat).len() <= 8,
        n < 0x1_0000_0000 ==> be_bytes(n as nat).len() <= 4,
{
    assert(pow256(8) == 0x1_0000_0000_0000_0000 && pow256(4) == 0x1_0000_0000) by {
        reveal_with_fuel(pow256, 9);
    }
    lemma_be_round_trip(n as nat);
    lemma_be_len(n as nat, 8);
    if n < 0x1_0000_0000 {
        lemma_be_len(n as nat, 4);
    }
}

/// The element with the given tag and body.
pub fn encode_tlv(tag: u8, body: &[u8]) -> (r: Vec<u8>)
    ensures
        r@ == tlv_bytes(tag, body@),
{
    let mut out: Vec<u8> = Vec::new();
    out.push(tag);
    encode_der_length(&mut out, body.len());
    out.extend_from_slice(body);
    assert(out@ =~= tlv_bytes(tag, body@));
    out
}

/// A SEQUENCE whose body is the concatenation of `parts`.
pub fn encode_sequence_from_parts(parts: &[&[u8]]) -> (r: Vec<u8>)
    ensures
        r@ == tlv_bytes(0x30, concat(parts@.map_values(|p: &[u8]| p@))),
{
    let mut body: Vec<u8> = Vec::new();
    let ghost all = parts@.map_values(|p: &[u8]| p@);
    let mut i: usize = 0;
    assert(all.take(0) =~= Seq::<Seq<u8>>::empty());
    while i < parts.len()
        invariant
            i <= parts.len(),
            all == parts@.map_values(|p: &[u8]| p@),
            body@ == concat(all.take(i as int)),
        decreases parts.len() - i,
    {
        body.extend_from_slice(parts[i]);
        assert(all.take(i + 1).drop_last() =~= all.take(i as int));
        i += 1;
    }
    assert(all.take(parts.len() as int) =~= all);
    encode_tlv(0x30, body.as_slice())
}

/// A SEQUENCE with the given body.
pub fn encode_sequence_raw(body: &[u8]) -> (r: Vec<u8>)
    ensures
        r@ == tlv_bytes(0x30, body@),
{
    encode_tlv(0x30, body)
}

/// The INTEGER that holds `value`.
pub fn encode_integer_u64(value: u64) -> (r: Vec<u8>)
    ensures
        r@ == tlv_bytes(0x02, integer_contents(value as nat)),
{
    let mut octets: Vec<u8> = Vec::new();
    push_be(&mut octets, value);
    proof {
        lemma_be_round_trip(value as nat);
        assert(octets@ =~= be_bytes(value as nat));
    }
    let mut contents: Vec<u8> = Vec::new();
    if octets[0] >= 0x80 {
        contents.push(0);
    }
    contents.extend_from_slice(octets.as_slice());
    assert(contents@ =~= integer_contents(value as nat));
    encode_tlv(0x02, contents.as_slice())
}

/// The BOOLEAN that holds `value`.
pub fn encode_boolean(value: bool) -> (r: Vec<u8>)
    ensures
        r@ == tlv_bytes(0x01, seq![if value { 0xFFu8 } else { 0x00u8 }]),
{
    let mut contents: Vec<u8> = Vec::new();
    if value {
        contents.push(0xFF);
    } else {
        contents.push(0x00);
    }
    assert(contents@ =~= seq![if value { 0xFFu8 } else { 0x00u8 }]);
    encode_tlv(0x01, contents.as_slice())
}

/// The magnitude octets of an INTEGER body: its leading zeros removed.
pub fn parse_integer_body(body: &[u8]) -> (r: Vec<u8>)
    ensures
        r@ == without_leading_zeros(body@),
{
    let mut i: usize = 0;
    assert(body@.skip(0) =~= body@);
    while body.len() - i > 1 && body[i] == 0
        invariant
            i <= body.len(),
            without_leading_zeros(body@.skip(i as int)) == without_leading_zeros(body@),
        decreases body.len() - i,
    {
        assert(body@.skip(i as int).skip(1) =~= body@.skip(i + 1));
        i += 1;
    }
    to_vec(tail(body, i))
}

/// Whether two INTEGER bodies hold the same magnitude octets.
pub fn integer_bodies_equal(a: &[u8], b: &[u8]) -> (r: bool)
    ensures
        r == (without_leading_zeros(a@) == without_leading_zeros(b@)),
{
    let left: Vec<u8> = parse_integer_body(a);
    let right: Vec<u8> = parse_integer_body(b);
    bytes_equal(left.as_slice(), right.as_slice())
}

/// The body of the first element of `data` that carries `tag`.
pub fn find_tagged_value(data: &[u8], tag: u8) -> (r: Option<&[u8]>)
    ensures
        r matches Some(v) ==> tagged_value(data@, tag) == Some(v@),
        r is None ==> tagged_value(data@, tag) is None,
{
    let mut pos: &[u8] = data;
    while pos.len() > 0
        invariant
            tagged_value(pos@, tag) == tagged_value(data@, tag),
        decreases pos.len(),
    {
        proof {
            lemma_tlv_shrinks(pos@);
        }
        match parse_tlv_with_rest(pos) {
            Err(_) => return None,
            Ok((t, body, rest)) => {
                if t == tag {
                    return Some(body);
                }
                pos = rest;
            },
        }
    }
    None
}

/// A length that was written is read back, whatever follows it.
pub proof fn law_length_round_trip(n: nat, after: Seq<u8>)
    requires
        n <= u32::MAX,
    ensures
        der_length(der_length_bytes(n) + after) == Ok::<(usize, usize), DerError>(
            (n as usize, der_length_bytes(n).len() as usize),
        ),
{
    let s = der_length_bytes(n) + after;
    if n < 0x80 {
        assert(s[0] == n as u8);
    } else {
        lemma_be_round_trip(n);
        lemma_be_len_u64(n as u64);
        assert(s[0] == (0x80 + be_bytes(n).len()) as u8);
        assert(s.subrange(1, 1 + be_bytes(n).len() as int) =~= be_bytes(n));
    }
}

/// An element that was written is read back, whatever follows it.
pub proof fn law_tlv_round_trip(tag: u8, body: Seq<u8>, after: Seq<u8>)
    requires
        body.len() <= u32::MAX,
    ensures
        tlv(tlv_bytes(tag, body) + after) == Ok::<(u8, Seq<u8>, Seq<u8>), DerError>(
            (tag, body, after),
        ),
{
    let s = tlv_bytes(tag, body) + after;
    law_length_round_trip(body.len(), body + after);
    lemma_be_len_u64(body.len() as u64);
    assert(s[0] == tag);
    assert(s.len() == 1 + der_length_bytes(body.len()).len() + body.len() + after.len());
    assert(s.skip(1) =~= der_length_bytes(body.len()) + (body + after));
    let start = 1 + der_length_bytes(body.len()).len();
    assert(s.subrange(start as int, (start + body.len()) as int) =~= body);
    assert(s.skip((start + body.len()) as int) =~= after);
}

/// The contents written for a number hold that number, start with a clear sign
/// bit, and have no removable zero octet.
pub proof fn law_integer_contents(n: nat)
    ensures
        be_value(integer_contents(n)) == n,
        integer_contents(n).len() >= 1,
        integer_contents(n)[0] < 0x80,
        integer_contents(n).len() > 1 && integer_contents(n)[0] == 0 ==> integer_contents(n)[1]
            >= 0x80,
{
    lemma_be_round_trip(n);
    if be_bytes(n)[0] >= 0x80 {
        let c = integer_contents(n);
        crate::bytes::lemma_without_leading_zeros(c);
        assert(c.skip(1) =~= be_bytes(n));
        crate::bytes::lemma_without_leading_zeros(be_bytes(n));
        assert(without_leading_zeros(c) == without_leading_zeros(c.skip(1)));
    }
}

} // verus!
