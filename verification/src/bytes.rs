//! Byte strings: comparison, copying, and unsigned big-endian numbers.

use vstd::prelude::*;

verus! {

/// The unsigned number written by `s` in base 256, most significant byte first.
pub open spec fn be_value(s: Seq<u8>) -> nat
    decreases s.len(),
{
    if s.len() == 0 {
        0
    } else {
        be_value(s.drop_last()) * 256 + s.last() as nat
    }
}

/// The shortest byte string whose base-256 value is `n` (one zero byte for zero).
pub open spec fn be_bytes(n: nat) -> Seq<u8>
    decreases n,
{
    if n < 256 {
        seq![n as u8]
    } else {
        be_bytes(n / 256).push((n % 256) as u8)
    }
}

/// `256` to the power `k`.
pub open spec fn pow256(k: nat) -> nat
    decreases k,
{
    if k == 0 {
        1
    } else {
        256 * pow256((k - 1) as nat)
    }
}

/// `s` without its leading zero bytes; the last byte always stays.
pub open spec fn without_leading_zeros(s: Seq<u8>) -> Seq<u8>
    decreases s.len(),
{
    if s.len() > 1 && s[0] == 0 {
        without_leading_zeros(s.skip(1))
    } else {
        s
    }
}

/// The concatenation of `parts`, in order.
pub open spec fn concat(parts: Seq<Seq<u8>>) -> Seq<u8>
    decreases parts.len(),
{
    if parts.len() == 0 {
        Seq::empty()
    } else {
        concat(parts.drop_last()) + parts.last()
    }
}

/// The views of a sequence of byte vectors.
pub open spec fn views(parts: Seq<Vec<u8>>) -> Seq<Seq<u8>> {
    parts.map_values(|p: Vec<u8>| p@)
}

/// Whether two byte strings are equal.
pub fn bytes_equal(a: &[u8], b: &[u8]) -> (r: bool)
    ensures
        r == (a@ == b@),
{
    if a.len() != b.len() {
        return false;
    }
    let mut i: usize = 0;
    while i < a.len()
        invariant
            i <= a.len(),
            a.len() == b.len(),
            forall|j: int| 0 <= j < i ==> a@[j] == b@[j],
        decreases a.len() - i,
    {
        if a[i] != b[i] {
            return false;
        }
        i += 1;
    }
    assert(a@ =~= b@);
    true
}

/// Whether `x` is one of the byte strings of `list`.
pub fn contains_bytes(list: &Vec<Vec<u8>>, x: &[u8]) -> (r: bool)
    ensures
        r == views(list@).contains(x@),
{
    let mut i: usize = 0;
    while i < list.len()
        invariant
            i <= list.len(),
            forall|j: int| 0 <= j < i ==> (#[trigger] list@[j])@ != x@,
        decreases list.len() - i,
    {
        if bytes_equal(list[i].as_slice(), x) {
            assert(views(list@)[i as int] == x@);
            return true;
        }
        i += 1;
    }
    assert forall|j: int| 0 <= j < list.len() implies views(list@)[j] != x@ by {
        assert(list@[j]@ != x@);
    }
    false
}

/// A copy of a byte string.
pub fn to_vec(a: &[u8]) -> (r: Vec<u8>)
    ensures
        r@ == a@,
{
    let mut v: Vec<u8> = Vec::new();
    v.extend_from_slice(a);
    assert(v@ =~= a@);
    v
}

/// The bytes of `a` from `from` on.
pub fn tail(a: &[u8], from: usize) -> (r: &[u8])
    requires
        from <= a.len(),
    ensures
        r@ == a@.skip(from as int),
{
    let r = vstd::slice::slice_subrange(a, from, a.len());
    assert(r@ =~= a@.skip(from as int));
    r
}

/// The first `count` bytes of `a`.
pub fn head(a: &[u8], count: usize) -> (r: &[u8])
    requires
        count <= a.len(),
    ensures
        r@ == a@.take(count as int),
{
    let r = vstd::slice::slice_subrange(a, 0, count);
    assert(r@ =~= a@.take(count as int));
    r
}

/// Appends the shortest base-256 form of `n`.
pub fn push_be(buf: &mut Vec<u8>, n: u64)
    ensures
        final(buf)@ == old(buf)@ + be_bytes(n as nat),
    decreases n,
{
    if n < 256 {
        buf.push(n as u8);
        assert(buf@ =~= old(buf)@ + be_bytes(n as nat));
    } else {
        push_be(buf, n / 256);
        buf.push((n % 256) as u8);
        assert(buf@ =~= old(buf)@ + be_bytes(n as nat));
    }
}

/// The base-256 value of one byte appended to `s`.
pub proof fn lemma_be_value_push(s: Seq<u8>, b: u8)
    ensures
        be_value(s.push(b)) == be_value(s) * 256 + b as nat,
{
    assert(s.push(b).drop_last() =~= s);
}

/// Writing a number and reading it back gives the number.
pub proof fn lemma_be_round_trip(n: nat)
    ensures
        be_value(be_bytes(n)) == n,
        be_bytes(n).len() >= 1,
        be_bytes(n).len() > 1 ==> be_bytes(n)[0] != 0,
        n > 0 ==> be_bytes(n)[0] != 0,
    decreases n,
{
    if n < 256 {
        lemma_be_value_push(Seq::empty(), n as u8);
        assert(seq![n as u8] =~= Seq::<u8>::empty().push(n as u8));
        assert(be_value(Seq::<u8>::empty()) == 0);
    } else {
        lemma_be_round_trip(n / 256);
        lemma_be_value_push(be_bytes(n / 256), (n % 256) as u8);
    }
}

/// A number below `256^k` is written with at most `k` bytes.
pub proof fn lemma_be_len(n: nat, k: nat)
    requires
        k >= 1,
        n < pow256(k),
    ensures
        be_bytes(n).len() <= k,
    decreases k,
{
    if n >= 256 {
        if k == 1 {
            reveal_with_fuel(pow256, 2);
        } else {
            lemma_be_len(n / 256, (k - 1) as nat);
        }
    }
}

/// Leading zeros do not change the value, and a string without them is the
/// shortest form of its value.
pub proof fn lemma_without_leading_zeros(s: Seq<u8>)
    requires
        s.len() >= 1,
    ensures
        be_value(without_leading_zeros(s)) == be_value(s),
        without_leading_zeros(s) == be_bytes(be_value(s)),
    decreases s.len(),
{
    if s.len() > 1 && s[0] == 0 {
        lemma_without_leading_zeros(s.skip(1));
        lemma_leading_zero(s);
    } else {
        lemma_shortest_form(s);
    }
}

/// Zeros that were removed are not there any more.
pub proof fn lemma_zeros_stripped_once(s: Seq<u8>)
    ensures
        without_leading_zeros(without_leading_zeros(s)) == without_leading_zeros(s),
    decreases s.len(),
{
    if s.len() > 1 && s[0] == 0 {
        lemma_zeros_stripped_once(s.skip(1));
    }
}

proof fn lemma_leading_zero(s: Seq<u8>)
    requires
        s.len() > 1,
        s[0] == 0,
    ensures
        be_value(s.skip(1)) == be_value(s),
    decreases s.len(),
{
    if s.len() == 2 {
        assert(s.drop_last() =~= Seq::<u8>::empty().push(s[0]));
        lemma_be_value_push(Seq::empty(), s[0]);
        assert(s.skip(1).drop_last() =~= Seq::<u8>::empty());
    } else {
        lemma_leading_zero(s.drop_last());
        assert(s.drop_last().skip(1) =~= s.skip(1).drop_last());
    }
}

proof fn lemma_shortest_form(s: Seq<u8>)
    requires
        s.len() >= 1,
        s.len() == 1 || s[0] != 0,
    ensures
        be_bytes(be_value(s)) == s,
        s[0] != 0 ==> be_value(s) > 0,
    decreases s.len(),
{
    if s.len() == 1 {
        assert(s.drop_last() =~= Seq::<u8>::empty());
        assert(be_value(Seq::<u8>::empty()) == 0);
        assert(be_bytes(be_value(s)) =~= s);
    } else {
        lemma_shortest_form(s.drop_last());
        assert(be_value(s) / 256 == be_value(s.drop_last()));
        assert(be_bytes(be_value(s)) =~= s);
    }
}

/// Two nonempty byte strings without their leading zeros are equal exactly when
/// they write the same unsigned number.
pub proof fn law_same_number(a: Seq<u8>, b: Seq<u8>)
    requires
        a.len() >= 1,
        b.len() >= 1,
    ensures
        without_leading_zeros(a) == without_leading_zeros(b) <==> be_value(a) == be_value(b),
{
    lemma_without_leading_zeros(a);
    lemma_without_leading_zeros(b);
}

/// `n` is the number that `s` writes in base 256, in one of the two byte orders.
pub open spec fn is_native_value(n: u64, s: Seq<u8>) -> bool {
    n == be_value(s) || n == be_value(s.reverse())
}

/// Calls `u64::from_ne_bytes`. Claimed: the number is the one that the bytes write,
/// with the most or the least significant one first. Which of the two depends on the
/// machine and is not said.
#[verifier::external_body]
pub(crate) fn native_u64(bytes: &[u8]) -> (r: u64)
    requires
        bytes@.len() == 8,
    ensures
        is_native_value(r, bytes@),
{
    u64::from_ne_bytes(bytes.try_into().expect("eight bytes"))
}

} // verus!
