//! What numbers and identifiers are written as.

use vstd::prelude::*;

#[allow(unused_imports)]
use crate::asn1::{arcs_text, oid_text};
#[allow(unused_imports)]
use crate::text::{decimal_text, hex_char, hex_text};

verus! {

/// The number that decimal digits stand for.
pub open spec fn number(text: Seq<char>) -> int
    decreases text.len(),
{
    if text.len() == 0 {
        0
    } else {
        number(text.drop_last()) * 10 + (text.last() as int - '0' as int)
    }
}

/// The digits of a number stand for it, and there are no more of them than needed.
pub proof fn law_decimal_digits(n: nat)
    ensures
        number(decimal_text(n)) == n,
        decimal_text(n).len() >= 1,
        decimal_text(n).len() > 1 ==> decimal_text(n)[0] != '0',
        forall|i: int|
            0 <= i < decimal_text(n).len() ==> '0' <= #[trigger] decimal_text(n)[i] <= '9',
        n > 0 ==> decimal_text(n)[0] != '0',
    decreases n,
{
    reveal_with_fuel(number, 2);
    if n >= 10 {
        let front = decimal_text(n / 10);
        law_decimal_digits(n / 10);
        assert(decimal_text(n).drop_last() =~= front);
        assert forall|i: int| 0 <= i < decimal_text(n).len() implies '0' <= #[trigger] decimal_text(
            n,
        )[i] <= '9' by {
            if i < front.len() {
                assert(decimal_text(n)[i] == front[i]);
            }
        }
        assert(decimal_text(n)[0] == front[0]);
    } else {
        assert(decimal_text(n).drop_last() =~= Seq::<char>::empty());
    }
}

/// Two different bytes have different hexadecimal digits.
pub proof fn law_hex_digits(a: u8, b: u8)
    ensures
        hex_text(a).len() == 2,
        hex_text(a) == hex_text(b) ==> a == b,
        a < 10 ==> hex_text(a) == seq!['0', ('0' as int + a) as char],
{
    assert(hex_text(a)[0] == hex_char(a as int / 16) && hex_text(a)[1] == hex_char(a as int % 16));
    assert(hex_text(b)[0] == hex_char(b as int / 16) && hex_text(b)[1] == hex_char(b as int % 16));
    if a < 10 {
        assert(hex_text(a) =~= seq!['0', ('0' as int + a) as char]);
    }
}

/// An object identifier is written as its numbers between points: the first octet holds
/// two of them, and each further one holds seven bits to the octet.
pub proof fn law_identifier_text(first: u8, arc: u8, rest: Seq<u8>)
    requires
        arc < 0x80,
    ensures
        oid_text(seq![first]) == decimal_text(first as nat / 40) + "."@ + decimal_text(
            first as nat % 40,
        ),
        arcs_text(seq![arc] + rest, 0) == "."@ + decimal_text(arc as nat) + arcs_text(rest, 0),
        forall|high: u8|
            0x80 <= high && 0 < high - 0x80 ==> arcs_text(#[trigger] (seq![high] + (seq![arc] + rest)), 0)
                == "."@ + decimal_text(((high - 0x80) * 128 + arc) as nat) + arcs_text(rest, 0),
{
    reveal(oid_text);
    let s = seq![first];
    assert(s.skip(1) =~= Seq::<u8>::empty());
    assert(arcs_text(s.skip(1), 0) =~= Seq::<char>::empty());
    assert(oid_text(s) =~= decimal_text(first as nat / 40) + "."@ + decimal_text(
        first as nat % 40,
    ));
    let t = seq![arc] + rest;
    assert(t.skip(1) =~= rest);
    assert forall|high: u8| 0x80 <= high && 0 < high - 0x80 implies arcs_text(
        #[trigger] (seq![high] + (seq![arc] + rest)),
        0,
    ) == "."@ + decimal_text(((high - 0x80) * 128 + arc) as nat) + arcs_text(rest, 0) by {
        let u = seq![high] + t;
        assert(u.skip(1) =~= t);
        assert(high as nat % 128 == high - 0x80);
        assert(arcs_text(u, 0) == arcs_text(t, (high - 0x80) as nat));
    }
}

} // verus!
