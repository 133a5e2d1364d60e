//! Which URLs and addresses may be fetched.

use ritsp_ltv::net::{
    check_literal_host, check_url_parts, fetch_target, is_disallowed_ip, redirect_step, unbracket,
    validate_resolved_addresses, FetchStep, IpAddr, RedirectStep, ResolvedAddress, UrlGuardError,
    UrlParts, MAX_REDIRECTS,
};

fn hex_segment(text: &str) -> u16 {
    u16::from_str_radix(text, 16).unwrap()
}

/// Reads an address as it is commonly written.
fn ip(text: &str) -> IpAddr {
    if !text.contains(':') {
        let octets: Vec<u8> = text.split('.').map(|o| o.parse().unwrap()).collect();
        return IpAddr::V4([octets[0], octets[1], octets[2], octets[3]]);
    }
    let mut segments: Vec<u16> = Vec::new();
    let (head, tail) = match text.find("::") {
        Some(at) => (&text[..at], Some(&text[at + 2..])),
        None => (text, None),
    };
    for part in head.split(':').filter(|p| !p.is_empty()) {
        segments.push(hex_segment(part));
    }
    let mut last: Vec<u16> = Vec::new();
    for part in tail.unwrap_or("").split(':').filter(|p| !p.is_empty()) {
        if part.contains('.') {
            let o: Vec<u16> = part.split('.').map(|o| o.parse().unwrap()).collect();
            last.push(o[0] * 256 + o[1]);
            last.push(o[2] * 256 + o[3]);
        } else {
            last.push(hex_segment(part));
        }
    }
    while segments.len() + last.len() < 8 {
        segments.push(0);
    }
    segments.extend(last);
    let mut out = [0u16; 8];
    out.copy_from_slice(&segments);
    IpAddr::V6(out)
}

fn resolved(text: &str) -> ResolvedAddress {
    ResolvedAddress { ip: ip(text), port: 0, text: text.to_string() }
}

#[test]
fn loopback_and_metadata_are_disallowed() {
    assert!(is_disallowed_ip(ip("127.0.0.1")));
    assert!(is_disallowed_ip(ip("169.254.169.254")));
    assert!(is_disallowed_ip(ip("10.0.0.1")));
    assert!(is_disallowed_ip(ip("192.168.1.1")));
    assert!(is_disallowed_ip(ip("172.16.0.1")));
    assert!(is_disallowed_ip(ip("100.64.0.1"))); // CGNAT
    assert!(is_disallowed_ip(ip("::1")));
    assert!(is_disallowed_ip(ip("fe80::1")));
    assert!(is_disallowed_ip(ip("fc00::1")));
    // IPv4-mapped loopback
    assert!(is_disallowed_ip(ip("::ffff:127.0.0.1")));
}

#[test]
fn public_addresses_are_allowed() {
    assert!(!is_disallowed_ip(ip("8.8.8.8")));
    assert!(!is_disallowed_ip(ip("1.1.1.1")));
    assert!(!is_disallowed_ip(ip("2606:4700:4700::1111")));
}

#[test]
fn reserved_ipv4_ranges_are_disallowed() {
    // Blocks that are not globally routable.
    assert!(is_disallowed_ip(ip("0.1.2.3"))); // 0.0.0.0/8 "this network"
    assert!(is_disallowed_ip(ip("192.0.0.1"))); // 192.0.0.0/24 IETF
    assert!(is_disallowed_ip(ip("198.18.0.1"))); // 198.18.0.0/15 benchmarking
    assert!(is_disallowed_ip(ip("198.19.255.255"))); // 198.18.0.0/15 upper half
    assert!(is_disallowed_ip(ip("240.0.0.1"))); // 240.0.0.0/4 reserved
    assert!(is_disallowed_ip(ip("255.255.255.255"))); // broadcast
    // Documentation block stays blocked.
    assert!(is_disallowed_ip(ip("203.0.113.7")));
}

#[test]
fn reserved_ipv6_ranges_are_disallowed() {
    for address in [
        "2001:db8::1",              // documentation
        "2001:db8:ffff:ffff::1",    // documentation upper boundary
        "3fff::1",                  // documentation
        "3fff:fff:ffff:ffff::1",    // documentation upper boundary
        "100::1",                   // discard-only
        "100::ffff:ffff:ffff:ffff", // discard-only upper boundary
        "fec0::1",                  // deprecated site-local
        "feff:ffff:ffff:ffff::1",   // site-local upper boundary
        "::ffff:203.0.113.7",       // IPv4-mapped documentation
    ] {
        assert!(is_disallowed_ip(ip(address)), "{address} must not be fetched");
    }
}

#[test]
fn blocks_end_where_they_should() {
    for address in [
        "9.255.255.255", "11.0.0.0", "100.63.255.255", "100.128.0.0", "126.255.255.255",
        "128.0.0.0", "169.253.255.255", "169.255.0.0", "172.15.255.255", "172.32.0.0",
        "192.0.1.0", "192.0.3.0", "192.167.255.255", "192.169.0.0", "198.17.255.255",
        "198.20.0.0", "198.51.99.255", "198.51.101.0", "203.0.112.255", "203.0.114.0",
        "223.255.255.255", "1.0.0.0", "::2", "100:0:0:1::", "2001:db7:ffff::", "2001:db9::",
        "3fff:1000::", "3ffe:ffff::", "fbff::1", "fe00::1", "fe7f::1", "::ffff:8.8.8.8",
    ] {
        assert!(!is_disallowed_ip(ip(address)), "{address} is public");
    }
    for address in ["224.0.0.1", "239.255.255.255", "::", "ff02::1", "fdff::1", "fe80::", "febf::1"] {
        assert!(is_disallowed_ip(ip(address)), "{address} is not public");
    }
}

#[test]
fn mapped_addresses_are_classified_as_ipv4() {
    for text in ["8.8.8.8", "127.0.0.1", "10.1.2.3", "203.0.113.7", "1.2.3.4"] {
        let mapped = format!("::ffff:{text}");
        assert_eq!(is_disallowed_ip(ip(text)), is_disallowed_ip(ip(&mapped)));
    }
}

#[test]
fn connection_resolver_rejects_empty_or_mixed_non_public_answers() {
    assert!(matches!(
        validate_resolved_addresses("fixture.test", Vec::new()),
        Err(UrlGuardError::NoAddresses(_))
    ));
    for blocked in ["127.0.0.1", "10.0.0.1", "2001:db8::1"] {
        for answers in [
            vec![resolved("8.8.8.8"), resolved(blocked)],
            vec![resolved(blocked), resolved("8.8.8.8")],
        ] {
            let error = validate_resolved_addresses("fixture.test", answers).unwrap_err();
            assert!(matches!(error, UrlGuardError::NonPublic(_)));
            assert_eq!(
                error.message(),
                format!("host fixture.test resolved to {blocked} is a non-public address (SSRF guard)")
            );
        }
    }
    let answers = vec![resolved("8.8.8.8"), resolved("2606:4700:4700::1111")];
    let checked = validate_resolved_addresses("fixture.test", answers).unwrap();
    assert_eq!(checked.len(), 2);
    assert_eq!(checked[0].ip, ip("8.8.8.8"), "the checked addresses must be the supplied ones");
    assert_eq!(checked[1].ip, ip("2606:4700:4700::1111"));
}

#[test]
fn rejects_non_http_scheme() {
    let err = fetch_target("file:///etc/passwd").unwrap_err();
    assert!(matches!(err, UrlGuardError::Scheme(_)));
    assert_eq!(
        err.message(),
        "URL scheme not allowed: file (only http/https are supported)"
    );
}

#[test]
fn rejects_literal_loopback() {
    let target = fetch_target("http://127.0.0.1/x").unwrap();
    assert_eq!(target.host, "127.0.0.1");
    let err = check_literal_host(&target.host, Some(ip("127.0.0.1"))).unwrap_err();
    assert!(matches!(err, UrlGuardError::NonPublic(_)));
}

#[test]
fn rejects_literal_metadata() {
    let target = fetch_target("http://169.254.169.254/latest/meta-data/").unwrap();
    let err = check_literal_host(&target.host, Some(ip(&target.host))).unwrap_err();
    assert!(matches!(err, UrlGuardError::NonPublic(_)));
}

#[test]
fn rejects_localhost_without_duplicate_non_public_message() {
    let target = fetch_target("http://localhost/x").unwrap();
    assert!(matches!(check_literal_host(&target.host, None), Ok(FetchStep::Resolve)));
    let err = validate_resolved_addresses(&target.host, vec![resolved("127.0.0.1")]).unwrap_err();
    let msg = err.message();
    assert!(matches!(err, UrlGuardError::NonPublic(_)));
    assert_eq!(
        msg.matches("non-public address").count(),
        1,
        "non-public wording should not be duplicated: {msg}"
    );
}

#[test]
fn targets_carry_the_bare_host_and_the_port() {
    let target = fetch_target("https://[2606:4700::1111]/ocsp").unwrap();
    assert_eq!((target.host.as_str(), target.port), ("2606:4700::1111", 443));
    let target = fetch_target("HTTP://Example.com:8080/").unwrap();
    assert_eq!((target.host.as_str(), target.port), ("example.com", 8080));
    assert!(matches!(fetch_target("not a url"), Err(UrlGuardError::Parse(_))));
    assert!(fetch_target("not a url").unwrap_err().message().starts_with("invalid URL: not a url: "));
}

#[test]
fn parsed_parts_decide() {
    let parts = |scheme: &str, host: Option<&str>| {
        Ok(UrlParts { scheme: scheme.to_string(), host: host.map(str::to_string), port: None })
    };
    let target = check_url_parts("u", parts("http", Some("[::1]"))).unwrap();
    assert_eq!((target.host.as_str(), target.port), ("::1", 0));
    assert!(matches!(check_url_parts("u", parts("https", None)), Err(UrlGuardError::NoHost)));
    assert!(matches!(check_url_parts("u", parts("ftp", Some("h"))), Err(UrlGuardError::Scheme(_))));
    assert_eq!(UrlGuardError::NoHost.message(), "URL has no host");
    assert_eq!(
        UrlGuardError::Resolution("h: gone".to_string()).message(),
        "failed to resolve host: h: gone"
    );
    assert_eq!(
        UrlGuardError::NoAddresses("h".to_string()).message(),
        "host h resolved to no addresses"
    );
}

#[test]
fn brackets_are_stripped_in_pairs() {
    assert_eq!(unbracket("[::1]"), "::1");
    assert_eq!(unbracket("[]"), "");
    assert_eq!(unbracket("["), "[");
    assert_eq!(unbracket("]"), "]");
    assert_eq!(unbracket("[::1"), "[::1");
    assert_eq!(unbracket("example.com"), "example.com");
    assert_eq!(unbracket(""), "");
}

#[test]
fn public_literals_need_no_resolution() {
    assert!(matches!(check_literal_host("8.8.8.8", Some(ip("8.8.8.8"))), Ok(FetchStep::Fetch)));
}

#[test]
fn redirects_are_bounded_and_guarded() {
    // The first redirect comes after one URL; five are followed.
    assert_eq!(redirect_step(1, None), RedirectStep::Follow);
    assert_eq!(redirect_step(MAX_REDIRECTS, None), RedirectStep::Follow);
    assert_eq!(redirect_step(MAX_REDIRECTS + 1, None), RedirectStep::TooMany);
    assert_eq!(redirect_step(1, Some(ip("10.0.0.1"))), RedirectStep::Stop);
    assert_eq!(redirect_step(1, Some(ip("8.8.8.8"))), RedirectStep::Follow);
    assert_eq!(redirect_step(9, Some(ip("10.0.0.1"))), RedirectStep::TooMany);
}
