//! Text of numbers, and UTF-8 text of byte strings.

pub mod laws;

use vstd::prelude::*;
#[allow(unused_imports)]
use vstd::utf8::{decode_utf8, valid_utf8};

#[allow(unused_imports)]
use crate::agrees_opt;

verus! {

/// The lower-case hexadecimal digit of `n`.
pub open spec fn hex_char(n: int) -> char {
    if n == 0 { '0' } else if n == 1 { '1' } else if n == 2 { '2' } else if n == 3 { '3' }
    else if n == 4 { '4' } else if n == 5 { '5' } else if n == 6 { '6' } else if n == 7 { '7' }
    else if n == 8 { '8' } else if n == 9 { '9' } else if n == 10 { 'a' } else if n == 11 { 'b' }
    else if n == 12 { 'c' } else if n == 13 { 'd' } else if n == 14 { 'e' } else { 'f' }
}

/// The two hexadecimal digits of a byte.
pub open spec fn hex_text(b: u8) -> Seq<char> {
    seq![hex_char(b as int / 16), hex_char(b as int % 16)]
}

/// The decimal digits of `n`.
pub open spec fn decimal_text(n: nat) -> Seq<char>
    decreases n,
{
    if n < 10 {
        seq![hex_char(n as int)]
    } else {
        decimal_text(n / 10).push(hex_char((n % 10) as int))
    }
}

fn digit(n: u8) -> (r: &'static str)
    requires
        n < 16,
    ensures
        r@ == seq![hex_char(n as int)],
{
    proof {
        reveal_strlit("0"); reveal_strlit("1"); reveal_strlit("2"); reveal_strlit("3");
        reveal_strlit("4"); reveal_strlit("5"); reveal_strlit("6"); reveal_strlit("7");
        reveal_strlit("8"); reveal_strlit("9"); reveal_strlit("a"); reveal_strlit("b");
        reveal_strlit("c"); reveal_strlit("d"); reveal_strlit("e"); reveal_strlit("f");
    }
    let r = if n == 0 { "0" } else if n == 1 { "1" } else if n == 2 { "2" } else if n == 3 { "3" }
        else if n == 4 { "4" } else if n == 5 { "5" } else if n == 6 { "6" } else if n == 7 { "7" }
        else if n == 8 { "8" } else if n == 9 { "9" } else if n == 10 { "a" } else if n == 11 { "b" }
        else if n == 12 { "c" } else if n == 13 { "d" } else if n == 14 { "e" } else { "f" };
    assert(r@ =~= seq![hex_char(n as int)]);
    r
}

/// Appends the two hexadecimal digits of `b`.
pub fn push_hex(out: &mut String, b: u8)
    ensures
        final(out)@ == old(out)@ + hex_text(b),
{
    out.append(digit(b / 16));
    out.append(digit(b % 16));
    assert(out@ =~= old(out)@ + hex_text(b));
}

/// Appends the decimal digits of `n`.
pub fn push_decimal(out: &mut String, n: u64)
    ensures
        final(out)@ == old(out)@ + decimal_text(n as nat),
    decreases n,
{
    if n >= 10 {
        push_decimal(out, n / 10);
    }
    out.append(digit((n % 10) as u8));
    assert(out@ =~= old(out)@ + decimal_text(n as nat));
}

/// Calls `std::str::from_utf8`. Claimed: text comes back exactly for valid
/// UTF-8, and it is the text that the bytes encode.
#[verifier::external_body]
pub(crate) fn utf8_text(bytes: &[u8]) -> (r: Option<String>)
    ensures
        agrees_opt(r, utf8_of(bytes@)),
{
    std::str::from_utf8(bytes).ok().map(str::to_owned)
}

/// The text that `bytes` encodes in UTF-8.
pub open spec fn utf8_of(bytes: Seq<u8>) -> Option<Seq<char>> {
    if valid_utf8(bytes) {
        Some(decode_utf8(bytes))
    } else {
        None
    }
}

} // verus!
