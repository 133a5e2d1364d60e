//! Which addresses count as public, and what is fetched from.

use vstd::prelude::*;

#[allow(unused_imports)]
use crate::net::{
    bare_host, first_non_public, host_decision, non_public, redirect_decision, target_of, FetchStep,
    FetchTargetView, IpAddr, ResolvedAddress, UrlGuardView, UrlPartsView,
};

verus! {

/// An IPv4 address is not public exactly where it belongs to one of the networks for
/// special use, as its numbers say.
pub proof fn law_ipv4_networks(o: [u8; 4])
    ensures
        non_public(IpAddr::V4(o)) <==> {
            ||| o@[0] == 0 || o@[0] == 10 || o@[0] == 127
            ||| o@[0] == 100 && 64 <= o@[1] <= 127
            ||| o@[0] == 169 && o@[1] == 254
            ||| o@[0] == 172 && 16 <= o@[1] <= 31
            ||| o@[0] == 192 && o@[1] == 0 && (o@[2] == 0 || o@[2] == 2)
            ||| o@[0] == 192 && o@[1] == 168
            ||| o@[0] == 198 && (o@[1] == 18 || o@[1] == 19)
            ||| o@[0] == 198 && o@[1] == 51 && o@[2] == 100
            ||| o@[0] == 203 && o@[1] == 0 && o@[2] == 113
            ||| o@[0] >= 224
        },
{
}

/// An IPv6 address that holds no IPv4 address is not public exactly where it belongs to
/// one of the networks for special use, as its groups say.
pub proof fn law_ipv6_networks(s: [u16; 8])
    requires
        !(s@[0] == 0 && s@[1] == 0 && s@[2] == 0 && s@[3] == 0 && s@[4] == 0 && s@[5] == 0xFFFF),
    ensures
        non_public(IpAddr::V6(s)) <==> {
            ||| s@[0] == 0 && s@[1] == 0 && s@[2] == 0 && s@[3] == 0 && s@[4] == 0 && s@[5] == 0
                && s@[6] == 0 && s@[7] <= 1
            ||| s@[0] == 0x0100 && s@[1] == 0 && s@[2] == 0 && s@[3] == 0
            ||| s@[0] == 0x2001 && s@[1] == 0x0DB8
            ||| s@[0] == 0x3FFF && s@[1] <= 0x0FFF
            ||| 0xFC00 <= s@[0] <= 0xFDFF
            ||| s@[0] >= 0xFE80
        },
{
}

/// An IPv6 address that holds an IPv4 address is as public as that address.
pub proof fn law_ipv4_in_ipv6(s: [u16; 8], o: [u8; 4])
    requires
        s@[0] == 0 && s@[1] == 0 && s@[2] == 0 && s@[3] == 0 && s@[4] == 0 && s@[5] == 0xFFFF,
        s@[6] == o@[0] * 0x100 + o@[1],
        s@[7] == o@[2] * 0x100 + o@[3],
    ensures
        non_public(IpAddr::V6(s)) <==> non_public(IpAddr::V4(o)),
{
}

/// A host in brackets is what stands between them; any other host is itself.
pub proof fn law_brackets(host: Seq<char>)
    ensures
        bare_host(seq!['['] + host + seq![']']) == host,
        host.len() == 0 || host[0] != '[' || host.last() != ']' ==> bare_host(host) == host,
{
    assert((seq!['['] + host + seq![']']).subrange(1, host.len() as int + 1) =~= host);
}

/// A URL is fetched exactly where it can be read, is one of HTTP or HTTPS, and has a
/// host: from that host without brackets, and at its port.
pub proof fn law_target(url: Seq<char>, parts: Result<UrlPartsView, Seq<char>>)
    ensures
        target_of(url, parts) is Ok <==> (parts matches Ok(p) && (p.scheme == "http"@ || p.scheme
            == "https"@) && p.host is Some),
        target_of(url, parts) matches Ok(t) ==> (parts matches Ok(p) && (p.host matches Some(h)
            && t.host == bare_host(h)) && (p.port matches Some(n) ==> t.port == n) && (p.port
            is None ==> t.port == 0)),
        parts matches Err(text) ==> target_of(url, parts) == Err::<FetchTargetView, UrlGuardView>(
            UrlGuardView::Parse(url + ": "@ + text),
        ),
        parts matches Ok(p) ==> (p.scheme != "http"@ && p.scheme != "https"@ ==> target_of(
            url,
            parts,
        ) == Err::<FetchTargetView, UrlGuardView>(UrlGuardView::Scheme(p.scheme))),
{
}

/// The address that is reported as not public is the first that is not.
pub proof fn law_first_address(addrs: Seq<ResolvedAddress>, i: nat, at: int)
    requires
        i <= at < addrs.len(),
        non_public(addrs[at].ip),
        forall|k: int| i <= k < at ==> !non_public((#[trigger] addrs[k]).ip),
    ensures
        first_non_public(addrs, i) == Some(at),
    decreases addrs.len() - i,
{
    if i < at {
        assert(!non_public(addrs[i as int].ip));
        law_first_address(addrs, i + 1, at);
    }
}

/// A redirect is followed exactly where at most five URLs came before it and it leads to
/// a name or to a public address; the sixth ends the fetch, wherever it leads.
pub proof fn law_redirects(previous: nat, literal: Option<IpAddr>)
    ensures
        redirect_decision(previous, literal) is Follow <==> previous < 6 && (literal matches Some(
            ip,
        ) ==> !non_public(ip)),
        redirect_decision(previous, literal) is TooMany <==> previous >= 6,
{
}

/// An address that is not public is never fetched from; a public one is, and a name is
/// resolved first.
pub proof fn law_literal_hosts(literal: Option<IpAddr>)
    ensures
        host_decision(literal) == Some(FetchStep::Fetch) <==> (literal matches Some(ip)
            && !non_public(ip)),
        host_decision(literal) == Some(FetchStep::Resolve) <==> literal is None,
{
}

} // verus!
