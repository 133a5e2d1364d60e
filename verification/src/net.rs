//! Which URLs and addresses may be fetched.
//!
//! URLs of revocation services stand in the certificate under validation, so
//! whoever made the certificate chooses the target. A target is fetched only over
//! HTTP or HTTPS, and only at public addresses.

pub mod laws;

use vstd::prelude::*;

#[allow(unused_imports)]
use crate::{agrees_opt, opt_view};

verus! {

/// The greatest number of redirects that are followed.
pub const MAX_REDIRECTS: usize = 5;

/// An IP address: its octets, or its segments.
#[derive(Debug, Clone, Copy, PartialEq, Eq)]
pub enum IpAddr {
    V4([u8; 4]),
    V6([u16; 8]),
}

/// An IPv4 address as a number.
pub open spec fn v4_number(o: Seq<u8>) -> int {
    o[0] * 0x100_0000 + o[1] * 0x1_0000 + o[2] * 0x100 + o[3]
}

/// The high half of an IPv6 address as a number.
pub open spec fn v6_high(s: Seq<u16>) -> int {
    s[0] * 0x1_0000_0000_0000 + s[1] * 0x1_0000_0000 + s[2] * 0x1_0000 + s[3]
}

/// The low half of an IPv6 address as a number.
pub open spec fn v6_low(s: Seq<u16>) -> int {
    s[4] * 0x1_0000_0000_0000 + s[5] * 0x1_0000_0000 + s[6] * 0x1_0000 + s[7]
}

/// The IPv4 addresses that are not globally routable, or never the address of one
/// host.
pub open spec fn non_public_v4(n: int) -> bool {
    // 0.0.0.0/8, this network
    ||| 0x0000_0000 <= n <= 0x00FF_FFFF
    // 10.0.0.0/8, private
    ||| 0x0A00_0000 <= n <= 0x0AFF_FFFF
    // 100.64.0.0/10, shared address space
    ||| 0x6440_0000 <= n <= 0x647F_FFFF
    // 127.0.0.0/8, loopback
    ||| 0x7F00_0000 <= n <= 0x7FFF_FFFF
    // 169.254.0.0/16, link-local
    ||| 0xA9FE_0000 <= n <= 0xA9FE_FFFF
    // 172.16.0.0/12, private
    ||| 0xAC10_0000 <= n <= 0xAC1F_FFFF
    // 192.0.0.0/24, protocol assignments
    ||| 0xC000_0000 <= n <= 0xC000_00FF
    // 192.0.2.0/24, documentation
    ||| 0xC000_0200 <= n <= 0xC000_02FF
    // 192.168.0.0/16, private
    ||| 0xC0A8_0000 <= n <= 0xC0A8_FFFF
    // 198.18.0.0/15, benchmarking
    ||| 0xC612_0000 <= n <= 0xC613_FFFF
    // 198.51.100.0/24, documentation
    ||| 0xC633_6400 <= n <= 0xC633_64FF
    // 203.0.113.0/24, documentation
    ||| 0xCB00_7100 <= n <= 0xCB00_71FF
    // 224.0.0.0/4, multicast, and 240.0.0.0/4, reserved
    ||| 0xE000_0000 <= n <= 0xFFFF_FFFF
}

/// The IPv6 addresses that are not public, apart from those that stand for an IPv4
/// address.
pub open spec fn non_public_v6(high: int, low: int) -> bool {
    // ::, unspecified, and ::1, loopback
    ||| high == 0 && 0 <= low <= 1
    // 100::/64, discard-only
    ||| high == 0x0100_0000_0000_0000
    // 2001:db8::/32, documentation
    ||| 0x2001_0DB8_0000_0000 <= high <= 0x2001_0DB8_FFFF_FFFF
    // 3fff::/20, documentation
    ||| 0x3FFF_0000_0000_0000 <= high <= 0x3FFF_0FFF_FFFF_FFFF
    // fc00::/7, unique local
    ||| 0xFC00_0000_0000_0000 <= high <= 0xFDFF_FFFF_FFFF_FFFF
    // fe80::/10, link-local, and fec0::/10, site-local
    ||| 0xFE80_0000_0000_0000 <= high <= 0xFEFF_FFFF_FFFF_FFFF
    // ff00::/8, multicast
    ||| 0xFF00_0000_0000_0000 <= high <= 0xFFFF_FFFF_FFFF_FFFF
}

/// The number of the IPv4 address that an IPv6 address stands for: those of
/// ::ffff:0:0/96 stand for one.
pub open spec fn mapped_v4(high: int, low: int) -> Option<int> {
    if high == 0 && 0xFFFF_0000_0000 <= low <= 0xFFFF_FFFF_FFFF {
        Some(low - 0xFFFF_0000_0000)
    } else {
        None
    }
}

/// An address is not public.
pub open spec fn non_public(ip: IpAddr) -> bool {
    match ip {
        IpAddr::V4(o) => non_public_v4(v4_number(o@)),
        IpAddr::V6(s) => match mapped_v4(v6_high(s@), v6_low(s@)) {
            Some(n) => non_public_v4(n),
            None => non_public_v6(v6_high(s@), v6_low(s@)),
        },
    }
}

/// Whether an IPv4 address is not public.
pub fn is_disallowed_ipv4(o: [u8; 4]) -> (r: bool)
    ensures
        r == non_public_v4(v4_number(o@)),
{
    let a: u8 = o[0];
    let b: u8 = o[1];
    let c: u8 = o[2];
    a == 0 || a == 10 || (a == 100 && 64 <= b && b <= 127) || a == 127 || (a == 169 && b == 254)
        || (a == 172 && 16 <= b && b <= 31) || (a == 192 && b == 0 && (c == 0 || c == 2)) || (a
        == 192 && b == 168) || (a == 198 && (b == 18 || b == 19)) || (a == 198 && b == 51 && c
        == 100) || (a == 203 && b == 0 && c == 113) || a >= 224
}

/// The IPv4 address that an IPv6 address stands for.
fn to_ipv4_mapped(s: [u16; 8]) -> (r: Option<[u8; 4]>)
    ensures
        match (r, mapped_v4(v6_high(s@), v6_low(s@))) {
            (Some(o), Some(n)) => v4_number(o@) == n,
            (None, None) => true,
            _ => false,
        },
{
    if s[0] == 0 && s[1] == 0 && s[2] == 0 && s[3] == 0 && s[4] == 0 && s[5] == 0xFFFF {
        let o: [u8; 4] = [
            (s[6] / 256) as u8,
            (s[6] % 256) as u8,
            (s[7] / 256) as u8,
            (s[7] % 256) as u8,
        ];
        Some(o)
    } else {
        None
    }
}

/// Whether an address is not public.
pub fn is_disallowed_ip(ip: IpAddr) -> (r: bool)
    ensures
        r == non_public(ip),
{
    match ip {
        IpAddr::V4(o) => is_disallowed_ipv4(o),
        IpAddr::V6(s) => match to_ipv4_mapped(s) {
            Some(o) => is_disallowed_ipv4(o),
            None => {
                let first: u16 = s[0];
                let upper_zero: bool = s[1] == 0 && s[2] == 0 && s[3] == 0;
                (first == 0 && upper_zero && s[4] == 0 && s[5] == 0 && s[6] == 0 && s[7] <= 1) || (
                first == 0x0100 && upper_zero) || (first == 0x2001 && s[1] == 0x0DB8) || (first
                    == 0x3FFF && s[1] <= 0x0FFF) || (0xFC00 <= first && first <= 0xFDFF) || first
                    >= 0xFE80
            },
        },
    }
}

/// An IPv4 address is classified the same when it is written as an IPv6 address.
pub proof fn law_mapped_addresses(o: [u8; 4], s: [u16; 8])
    requires
        v6_high(s@) == 0,
        v6_low(s@) == 0xFFFF_0000_0000 + v4_number(o@),
    ensures
        non_public(IpAddr::V6(s)) == non_public(IpAddr::V4(o)),
{
}

/// The text after its first character, where that is `c`.
pub open spec fn after_first(text: Seq<char>, c: char) -> Option<Seq<char>> {
    if text.len() > 0 && text[0] == c {
        Some(text.subrange(1, text.len() as int))
    } else {
        None
    }
}

/// The text before its last character, where that is `c`.
pub open spec fn before_last(text: Seq<char>, c: char) -> Option<Seq<char>> {
    if text.len() > 0 && text.last() == c {
        Some(text.drop_last())
    } else {
        None
    }
}

/// Calls `str::strip_prefix` with a character. Claimed: the text after the
/// character comes back exactly when the text starts with it.
#[verifier::external_body]
fn strip_first(text: &str, c: char) -> (r: Option<&str>)
    ensures
        agrees_opt(r, after_first(text@, c)),
{
    text.strip_prefix(c)
}

/// Calls `str::strip_suffix` with a character. Claimed: the text before the
/// character comes back exactly when the text ends with it.
#[verifier::external_body]
fn strip_last(text: &str, c: char) -> (r: Option<&str>)
    ensures
        agrees_opt(r, before_last(text@, c)),
{
    text.strip_suffix(c)
}

/// A host without the brackets round an IPv6 address.
pub open spec fn bare_host(host: Seq<char>) -> Seq<char> {
    if host.len() >= 2 && host[0] == '[' && host.last() == ']' {
        host.subrange(1, host.len() - 1)
    } else {
        host
    }
}

/// Strips the brackets round an IPv6 address in a host.
pub fn unbracket(host: &str) -> (r: &str)
    ensures
        r@ == bare_host(host@),
{
    match strip_first(host, '[') {
        None => host,
        Some(rest) => match strip_last(rest, ']') {
            None => host,
            Some(inner) => {
                assert(inner@ =~= host@.subrange(1, host@.len() - 1));
                inner
            },
        },
    }
}

/// Why a URL is not fetched.
#[derive(Debug)]
pub enum UrlGuardError {
    /// The URL did not parse.
    Parse(String),
    /// The scheme is neither HTTP nor HTTPS.
    Scheme(String),
    /// The URL has no host.
    NoHost,
    /// The host could not be resolved.
    Resolution(String),
    /// The host resolved to no address.
    NoAddresses(String),
    /// The host is, or resolves to, an address that is not public.
    NonPublic(String),
}

/// What a [`UrlGuardError`] holds.
#[verifier::ext_equal]
pub enum UrlGuardView {
    Parse(Seq<char>),
    Scheme(Seq<char>),
    NoHost,
    Resolution(Seq<char>),
    NoAddresses(Seq<char>),
    NonPublic(Seq<char>),
}

impl View for UrlGuardError {
    type V = UrlGuardView;

    open spec fn view(&self) -> UrlGuardView {
        match *self {
            UrlGuardError::Parse(t) => UrlGuardView::Parse(t@),
            UrlGuardError::Scheme(t) => UrlGuardView::Scheme(t@),
            UrlGuardError::NoHost => UrlGuardView::NoHost,
            UrlGuardError::Resolution(t) => UrlGuardView::Resolution(t@),
            UrlGuardError::NoAddresses(t) => UrlGuardView::NoAddresses(t@),
            UrlGuardError::NonPublic(t) => UrlGuardView::NonPublic(t@),
        }
    }
}

impl UrlGuardError {
    /// The text of the error.
    pub open spec fn spec_message(self) -> Seq<char> {
        match self {
            UrlGuardError::Parse(t) => "invalid URL: "@ + t@,
            UrlGuardError::Scheme(t) => "URL scheme not allowed: "@ + t@
                + " (only http/https are supported)"@,
            UrlGuardError::NoHost => "URL has no host"@,
            UrlGuardError::Resolution(t) => "failed to resolve host: "@ + t@,
            UrlGuardError::NoAddresses(t) => "host "@ + t@ + " resolved to no addresses"@,
            UrlGuardError::NonPublic(t) => "host "@ + t@ + " is a non-public address (SSRF guard)"@,
        }
    }

    /// The text of the error.
    pub fn message(&self) -> (r: String)
        ensures
            r@ == self.spec_message(),
    {
        let mut out: String = String::new();
        match self {
            UrlGuardError::Parse(t) => {
                out.append("invalid URL: ");
                out.append(t.as_str());
            },
            UrlGuardError::Scheme(t) => {
                out.append("URL scheme not allowed: ");
                out.append(t.as_str());
                out.append(" (only http/https are supported)");
            },
            UrlGuardError::NoHost => out.append("URL has no host"),
            UrlGuardError::Resolution(t) => {
                out.append("failed to resolve host: ");
                out.append(t.as_str());
            },
            UrlGuardError::NoAddresses(t) => {
                out.append("host ");
                out.append(t.as_str());
                out.append(" resolved to no addresses");
            },
            UrlGuardError::NonPublic(t) => {
                out.append("host ");
                out.append(t.as_str());
                out.append(" is a non-public address (SSRF guard)");
            },
        }
        assert(out@ =~= self.spec_message());
        out
    }
}

/// A result of a guard agrees with its model: the same value, or an error whose
/// view is the modelled error.
pub open spec fn guards<T: View>(
    r: Result<T, UrlGuardError>,
    model: Result<T::V, UrlGuardView>,
) -> bool {
    match (r, model) {
        (Ok(v), Ok(w)) => v@ == w,
        (Err(e), Err(f)) => e@ == f,
        _ => false,
    }
}

/// The parts of a URL that decide whether it is fetched.
#[derive(Debug)]
pub struct UrlParts {
    pub scheme: String,
    pub host: Option<String>,
    /// The port that the URL names, or the usual one of its scheme.
    pub port: Option<u16>,
}

/// What [`UrlParts`] holds.
#[verifier::ext_equal]
pub struct UrlPartsView {
    pub scheme: Seq<char>,
    pub host: Option<Seq<char>>,
    pub port: Option<u16>,
}

impl View for UrlParts {
    type V = UrlPartsView;

    open spec fn view(&self) -> UrlPartsView {
        UrlPartsView { scheme: self.scheme@, host: opt_view(self.host), port: self.port }
    }
}

/// The parts of a URL, or the text of the error that parsing it gives.
pub uninterp spec fn url_parts_of(url: Seq<char>) -> Result<UrlPartsView, Seq<char>>;

/// A parsed URL or the text of an error, as its model says.
pub open spec fn is_parse(
    r: Result<UrlParts, String>,
    model: Result<UrlPartsView, Seq<char>>,
) -> bool {
    match (r, model) {
        (Ok(p), Ok(q)) => p@ == q,
        (Err(e), Err(f)) => e@ == f,
        _ => false,
    }
}

/// Calls `reqwest::Url::parse`, and reads the scheme, the host and the port with
/// `scheme`, `host_str` and `port_or_known_default`. Claimed: the result depends on
/// the text alone; it is named, and nothing more is said of it.
#[verifier::external_body]
fn parse_url(url: &str) -> (r: Result<UrlParts, String>)
    ensures
        is_parse(r, url_parts_of(url@)),
{
    let parsed = reqwest::Url::parse(url).map_err(|e| e.to_string())?;
    Ok(UrlParts {
        scheme: parsed.scheme().to_owned(),
        host: parsed.host_str().map(str::to_owned),
        port: parsed.port_or_known_default(),
    })
}

/// The host to fetch from.
#[derive(Debug)]
pub struct FetchTarget {
    /// The host, without brackets.
    pub host: String,
    /// The port, or 0 where none is known.
    pub port: u16,
}

/// What a [`FetchTarget`] holds.
#[verifier::ext_equal]
pub struct FetchTargetView {
    pub host: Seq<char>,
    pub port: u16,
}

impl View for FetchTarget {
    type V = FetchTargetView;

    open spec fn view(&self) -> FetchTargetView {
        FetchTargetView { host: self.host@, port: self.port }
    }
}

/// The target of a URL with the given parts.
pub open spec fn target_of(url: Seq<char>, parts: Result<UrlPartsView, Seq<char>>) -> Result<
    FetchTargetView,
    UrlGuardView,
> {
    match parts {
        Err(text) => Err(UrlGuardView::Parse(url + ": "@ + text)),
        Ok(p) => if p.scheme != "http"@ && p.scheme != "https"@ {
            Err(UrlGuardView::Scheme(p.scheme))
        } else {
            match p.host {
                None => Err(UrlGuardView::NoHost),
                Some(host) => Ok(
                    FetchTargetView {
                        host: bare_host(host),
                        port: match p.port {
                            Some(n) => n,
                            None => 0,
                        },
                    },
                ),
            }
        },
    }
}

/// Takes the target from a parsed URL: only HTTP and HTTPS are fetched.
pub fn check_url_parts(url: &str, parsed: Result<UrlParts, String>) -> (r: Result<
    FetchTarget,
    UrlGuardError,
>)
    ensures
        forall|model: Result<UrlPartsView, Seq<char>>|
            is_parse(parsed, model) ==> guards(r, #[trigger] target_of(url@, model)),
{
    let parts = match parsed {
        Err(text) => {
            let mut m: String = url.to_owned();
            m.append(": ");
            m.append(text.as_str());
            return Err(UrlGuardError::Parse(m));
        },
        Ok(p) => p,
    };
    if parts.scheme != "http".to_owned() && parts.scheme != "https".to_owned() {
        return Err(UrlGuardError::Scheme(parts.scheme));
    }
    match parts.host {
        None => Err(UrlGuardError::NoHost),
        Some(host) => {
            let port: u16 = match parts.port {
                Some(n) => n,
                None => 0,
            };
            Ok(FetchTarget { host: unbracket(host.as_str()).to_owned(), port })
        },
    }
}

/// Takes the target from a URL.
pub fn fetch_target(url: &str) -> (r: Result<FetchTarget, UrlGuardError>)
    ensures
        guards(r, target_of(url@, url_parts_of(url@))),
{
    let parsed = parse_url(url);
    check_url_parts(url, parsed)
}

/// What is to be done about a target.
#[derive(Debug, Clone, Copy, PartialEq, Eq, Structural)]
pub enum FetchStep {
    /// The target may be fetched.
    Fetch,
    /// The host is to be resolved, and its addresses to be checked.
    Resolve,
}

/// A host that is a public address is fetched, one that is another address is not, and a
/// name is resolved.
pub open spec fn host_decision(literal: Option<IpAddr>) -> Option<FetchStep> {
    match literal {
        None => Some(FetchStep::Resolve),
        Some(ip) => if non_public(ip) {
            None
        } else {
            Some(FetchStep::Fetch)
        },
    }
}

/// Decides about a host that is the given address, or that is a name where there
/// is none. A host that is a public address needs no resolution.
pub fn check_literal_host(host: &str, literal: Option<IpAddr>) -> (r: Result<
    FetchStep,
    UrlGuardError,
>)
    ensures
        match (r, literal) {
            (Ok(step), None) => step == FetchStep::Resolve,
            (Ok(step), Some(ip)) => step == FetchStep::Fetch && !non_public(ip),
            (Err(e), Some(ip)) => e@ == UrlGuardView::NonPublic(host@) && non_public(ip),
            (Err(_), None) => false,
        },
        r matches Ok(step) ==> host_decision(literal) == Some(step),
        r is Err <==> host_decision(literal) is None,
{
    match literal {
        None => Ok(FetchStep::Resolve),
        Some(ip) => if is_disallowed_ip(ip) {
            Err(UrlGuardError::NonPublic(host.to_owned()))
        } else {
            Ok(FetchStep::Fetch)
        },
    }
}

/// An address that a host resolved to.
#[derive(Debug)]
pub struct ResolvedAddress {
    pub ip: IpAddr,
    pub port: u16,
    /// The address as it is written in messages.
    pub text: String,
}

/// The first address from index `i` on that is not public.
pub open spec fn first_non_public(addrs: Seq<ResolvedAddress>, i: nat) -> Option<int>
    decreases addrs.len() - i,
{
    if i >= addrs.len() {
        None
    } else if non_public(addrs[i as int].ip) {
        Some(i as int)
    } else {
        first_non_public(addrs, i + 1)
    }
}

/// Checks the addresses that a host resolved to. All of them must be public; they
/// come back as they are.
pub fn validate_resolved_addresses(host: &str, addrs: Vec<ResolvedAddress>) -> (r: Result<
    Vec<ResolvedAddress>,
    UrlGuardError,
>)
    ensures
        match r {
            Ok(out) => out == addrs && addrs@.len() > 0 && first_non_public(addrs@, 0) is None,
            Err(e) => if addrs@.len() == 0 {
                e@ == UrlGuardView::NoAddresses(host@)
            } else {
                first_non_public(addrs@, 0) matches Some(i) && e@ == UrlGuardView::NonPublic(
                    host@ + " resolved to "@ + addrs@[i].text@,
                )
            },
        },
{
    if addrs.len() == 0 {
        return Err(UrlGuardError::NoAddresses(host.to_owned()));
    }
    let mut i: usize = 0;
    while i < addrs.len()
        invariant
            i <= addrs.len(),
            addrs@.len() > 0,
            first_non_public(addrs@, i as nat) == first_non_public(addrs@, 0),
        decreases addrs.len() - i,
    {
        if is_disallowed_ip(addrs[i].ip) {
            let mut m: String = host.to_owned();
            m.append(" resolved to ");
            m.append(addrs[i].text.as_str());
            return Err(UrlGuardError::NonPublic(m));
        }
        i += 1;
    }
    Ok(addrs)
}

/// No address is left out: where none of the addresses from index `i` on is found
/// not to be public, each of them is public.
pub proof fn law_every_address_is_checked(addrs: Seq<ResolvedAddress>, i: nat)
    ensures
        first_non_public(addrs, i) is None <==> forall|j: int|
            i <= j < addrs.len() ==> !non_public((#[trigger] addrs[j]).ip),
    decreases addrs.len() - i,
{
    if i < addrs.len() {
        law_every_address_is_checked(addrs, i + 1);
        if non_public(addrs[i as int].ip) {
            assert(i <= i as int && (i as int) < addrs.len());
        }
    }
}

/// What is to be done about a redirect.
#[derive(Debug, Clone, Copy, PartialEq, Eq, Structural)]
pub enum RedirectStep {
    /// Too many redirects came before it: the fetch fails.
    TooMany,
    /// It leads to an address that is not public: it is not followed.
    Stop,
    /// It is followed.
    Follow,
}

/// A redirect is followed where not too many came before it and it does not lead to an
/// address that is not public.
pub open spec fn redirect_decision(previous: nat, literal: Option<IpAddr>) -> RedirectStep {
    if previous > MAX_REDIRECTS {
        RedirectStep::TooMany
    } else if literal matches Some(ip) && non_public(ip) {
        RedirectStep::Stop
    } else {
        RedirectStep::Follow
    }
}

/// Decides about a redirect: how many URLs came before it, the first one and those
/// of the redirects that were followed, and the address that its host is, where it
/// is one.
pub fn redirect_step(previous: usize, literal: Option<IpAddr>) -> (r: RedirectStep)
    ensures
        r == (if previous > MAX_REDIRECTS {
            RedirectStep::TooMany
        } else if literal matches Some(ip) && non_public(ip) {
            RedirectStep::Stop
        } else {
            RedirectStep::Follow
        }),
        r == redirect_decision(previous as nat, literal),
{
    if previous > MAX_REDIRECTS {
        return RedirectStep::TooMany;
    }
    match literal {
        Some(ip) => if is_disallowed_ip(ip) {
            RedirectStep::Stop
        } else {
            RedirectStep::Follow
        },
        None => RedirectStep::Follow,
    }
}

} // verus!
