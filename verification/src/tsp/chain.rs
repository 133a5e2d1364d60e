//! Ordering of embedded certificates into a path.

use vstd::prelude::*;

use crate::bytes::bytes_equal;
use crate::cert::Certificate;
use crate::crypto::verify::{verify_certificate_signature_with_policy, SignaturePolicy};
#[allow(unused_imports)]
use crate::cert::{certificate_views, CertificateView};
#[allow(unused_imports)]
use crate::crypto::verify::certificate_signature;

verus! {

/// The most certificates that are added above the signer.
pub const MAX_CHAIN_STEPS: usize = 16;

/// A certificate is already in a chain.
pub open spec fn in_chain(chain: Seq<CertificateView>, c: CertificateView) -> bool {
    exists|i: int| 0 <= i < chain.len() && (#[trigger] chain[i]).tbs == c.tbs
}

/// A certificate may follow the last one of a chain: it has the name of the
/// issuer, and is not in the chain yet.
pub open spec fn may_follow(chain: Seq<CertificateView>, c: CertificateView) -> bool {
    c.subject == chain.last().issuer && !in_chain(chain, c)
}

/// A certificate may follow the last one of a chain, and its key verifies the
/// signature on it.
pub open spec fn verifies_last(
    chain: Seq<CertificateView>,
    c: CertificateView,
    legacy: bool,
) -> bool {
    may_follow(chain, c) && certificate_signature(chain.last(), c, legacy) is Ok
}

/// `i` is the first index of a certificate that may follow; with `signed`, of one
/// whose key verifies the signature.
pub open spec fn first_follower(
    chain: Seq<CertificateView>,
    pool: Seq<CertificateView>,
    legacy: bool,
    signed: bool,
    i: int,
) -> bool {
    &&& 0 <= i < pool.len()
    &&& if signed { verifies_last(chain, pool[i], legacy) } else { may_follow(chain, pool[i]) }
    &&& forall|j: int|
        0 <= j < i ==> !(if signed {
            verifies_last(chain, #[trigger] pool[j], legacy)
        } else {
            may_follow(chain, pool[j])
        })
}

/// `i` is the index of the next certificate of a chain: the first whose key
/// verifies the signature, and where there is none the first that may follow.
pub open spec fn next_index(
    chain: Seq<CertificateView>,
    pool: Seq<CertificateView>,
    legacy: bool,
    i: int,
) -> bool {
    ||| first_follower(chain, pool, legacy, true, i)
    ||| first_follower(chain, pool, legacy, false, i) && forall|j: int|
        0 <= j < pool.len() ==> !verifies_last(chain, #[trigger] pool[j], legacy)
}

/// The chain that grows from `chain` in at most `steps` steps. It ends at a
/// certificate that names itself as issuer, or where no certificate may follow.
pub open spec fn grown_chain(
    chain: Seq<CertificateView>,
    pool: Seq<CertificateView>,
    legacy: bool,
    steps: nat,
) -> Seq<CertificateView>
    decreases steps,
{
    if steps == 0 || chain.last().issuer == chain.last().subject || !(exists|i: int|
        next_index(chain, pool, legacy, i)) {
        chain
    } else {
        grown_chain(
            chain.push(pool[choose|i: int| next_index(chain, pool, legacy, i)]),
            pool,
            legacy,
            (steps - 1) as nat,
        )
    }
}

/// The next certificate of a chain is determined.
pub proof fn lemma_next_index_unique(
    chain: Seq<CertificateView>,
    pool: Seq<CertificateView>,
    legacy: bool,
    a: int,
    b: int,
)
    requires
        next_index(chain, pool, legacy, a),
        next_index(chain, pool, legacy, b),
    ensures
        a == b,
{
    lemma_next_index_order(chain, pool, legacy, a, b);
    lemma_next_index_order(chain, pool, legacy, b, a);
}

proof fn lemma_next_index_order(
    chain: Seq<CertificateView>,
    pool: Seq<CertificateView>,
    legacy: bool,
    a: int,
    b: int,
)
    requires
        next_index(chain, pool, legacy, a),
        next_index(chain, pool, legacy, b),
    ensures
        a >= b,
{
    if a < b {
        let low = pool[a];
        let high = pool[b];
        if first_follower(chain, pool, legacy, true, b) {
            assert(!verifies_last(chain, low, legacy));
            assert(verifies_last(chain, high, legacy));
        } else {
            assert(!may_follow(chain, low));
        }
    }
}

fn is_in_chain(chain: &Vec<Certificate>, c: &Certificate) -> (r: bool)
    ensures
        r == in_chain(certificate_views(chain@), c@),
{
    let mut i: usize = 0;
    while i < chain.len()
        invariant
            i <= chain.len(),
            forall|j: int|
                0 <= j < i ==> (#[trigger] certificate_views(chain@)[j]).tbs != c@.tbs,
        decreases chain.len() - i,
    {
        assert(certificate_views(chain@)[i as int] == chain@[i as int]@);
        if bytes_equal(chain[i].tbs.as_slice(), c.tbs.as_slice()) {
            return true;
        }
        i += 1;
    }
    false
}

fn find_next(chain: &Vec<Certificate>, pool: &[Certificate], policy: &SignaturePolicy) -> (r: Option<
    usize,
>)
    requires
        chain.len() > 0,
    ensures
        r matches Some(i) ==> next_index(
            certificate_views(chain@),
            certificate_views(pool@),
            policy.legacy(),
            i as int,
        ),
        r is None ==> forall|i: int|
            !next_index(certificate_views(chain@), certificate_views(pool@), policy.legacy(), i),
{
    let ghost links = certificate_views(chain@);
    let ghost certs = certificate_views(pool@);
    let ghost legacy = policy.legacy();
    let current = &chain[chain.len() - 1];
    assert(links.last() == current@);
    let mut fallback: Option<usize> = None;
    let mut i: usize = 0;
    while i < pool.len()
        invariant
            i <= pool.len(),
            chain.len() > 0,
            links == certificate_views(chain@),
            certs == certificate_views(pool@),
            legacy == policy.legacy(),
            links.last() == current@,
            forall|j: int| 0 <= j < i ==> !verifies_last(links, #[trigger] certs[j], legacy),
            fallback is None ==> forall|j: int|
                0 <= j < i ==> !may_follow(links, #[trigger] certs[j]),
            fallback matches Some(k) ==> k < i && first_follower(
                links,
                certs,
                legacy,
                false,
                k as int,
            ),
        decreases pool.len() - i,
    {
        let c = &pool[i];
        assert(certs[i as int] == c@);
        if bytes_equal(c.subject.as_slice(), current.issuer.as_slice()) && !is_in_chain(chain, c) {
            if verify_certificate_signature_with_policy(current, c, policy).is_ok() {
                assert(first_follower(links, certs, legacy, true, i as int));
                return Some(i);
            }
            if fallback.is_none() {
                fallback = Some(i);
                assert(first_follower(links, certs, legacy, false, i as int));
            }
        }
        i += 1;
    }
    proof {
        if fallback is None {
            assert forall|j: int| !next_index(links, certs, legacy, j) by {
                if 0 <= j < certs.len() {
                    assert(!may_follow(links, certs[j]));
                }
            }
        }
    }
    fallback
}

/// Orders the certificates of a pool into a path from the signer upwards. Of the
/// certificates with the issuer's name, one whose key verifies the signature is
/// preferred.
pub fn order_chain(
    signer: &Certificate,
    embedded: &[Certificate],
    policy: SignaturePolicy,
) -> (r: Vec<Certificate>)
    ensures
        certificate_views(r@) == grown_chain(
            seq![signer@],
            certificate_views(embedded@),
            policy.legacy(),
            MAX_CHAIN_STEPS as nat,
        ),
{
    let ghost pool = certificate_views(embedded@);
    let ghost legacy = policy.legacy();
    let mut chain: Vec<Certificate> = Vec::new();
    chain.push(signer.duplicate());
    assert(certificate_views(chain@) =~= seq![signer@]);
    let mut steps: usize = MAX_CHAIN_STEPS;
    while steps > 0
        invariant_except_break
            chain.len() > 0,
            pool == certificate_views(embedded@),
            legacy == policy.legacy(),
            grown_chain(certificate_views(chain@), pool, legacy, steps as nat) == grown_chain(
                seq![signer@],
                pool,
                legacy,
                MAX_CHAIN_STEPS as nat,
            ),
        ensures
            certificate_views(chain@) == grown_chain(
                seq![signer@],
                pool,
                legacy,
                MAX_CHAIN_STEPS as nat,
            ),
        decreases steps,
    {
        let current = &chain[chain.len() - 1];
        assert(certificate_views(chain@).last() == current@);
        if bytes_equal(current.issuer.as_slice(), current.subject.as_slice()) {
            break;
        }
        match find_next(&chain, embedded, &policy) {
            None => {
                break;
            },
            Some(i) => {
                proof {
                    let links = certificate_views(chain@);
                    let k = choose|k: int| next_index(links, pool, legacy, k);
                    lemma_next_index_unique(links, pool, legacy, i as int, k);
                }
                let ghost links = certificate_views(chain@);
                chain.push(embedded[i].duplicate());
                assert(certificate_views(chain@) =~= links.push(pool[i as int]));
            },
        }
        steps -= 1;
    }
    chain
}

/// A path starts as it was begun, each certificate has the name that the one
/// before it gives its issuer, no certificate occurs twice, and at most `steps`
/// certificates are added.
pub proof fn law_chain_links(
    chain: Seq<CertificateView>,
    pool: Seq<CertificateView>,
    legacy: bool,
    steps: nat,
)
    requires
        chain.len() > 0,
        forall|i: int, j: int|
            0 <= i < j < chain.len() ==> (#[trigger] chain[i]).tbs != (#[trigger] chain[j]).tbs,
    ensures
        ({
            let r = grown_chain(chain, pool, legacy, steps);
            &&& chain.len() <= r.len() <= chain.len() + steps
            &&& r.take(chain.len() as int) == chain
            &&& forall|i: int|
                chain.len() <= i < r.len() ==> #[trigger] r[i].subject == r[i - 1].issuer
                    && pool.contains(r[i])
            &&& forall|i: int, j: int|
                0 <= i < j < r.len() ==> (#[trigger] r[i]).tbs != (#[trigger] r[j]).tbs
        }),
    decreases steps,
{
    let r = grown_chain(chain, pool, legacy, steps);
    if steps == 0 || chain.last().issuer == chain.last().subject || !(exists|i: int|
        next_index(chain, pool, legacy, i)) {
        assert(r.take(chain.len() as int) =~= chain);
    } else {
        let k = choose|i: int| next_index(chain, pool, legacy, i);
        let longer = chain.push(pool[k]);
        assert(may_follow(chain, pool[k]));
        assert forall|i: int, j: int| 0 <= i < j < longer.len() implies (#[trigger] longer[i]).tbs
            != (#[trigger] longer[j]).tbs by {
            if j == chain.len() {
                assert(chain[i].tbs != pool[k].tbs);
            }
        }
        law_chain_links(longer, pool, legacy, (steps - 1) as nat);
        assert(r.take(chain.len() as int) =~= r.take(longer.len() as int).take(chain.len() as int));
        assert(longer.take(chain.len() as int) =~= chain);
        assert(r[chain.len() as int] == r.take(longer.len() as int)[chain.len() as int]);
        assert(r[chain.len() - 1] == r.take(longer.len() as int)[chain.len() - 1]);
        assert(pool.contains(pool[k]));
    }
}

} // verus!
