use surreal_s3::http::client::{
    AttemptFailure, ConnectAttempts, FailureCause, HttpClient, ServerTarget, UriParts, server_name_of,
};
use surreal_s3::http::stream::{alpn_protocols, needs_host_header, negotiates_http2};
use surreal_s3::net::IpAddress;

fn uri(scheme: Option<&str>, host: Option<&str>, port: Option<u16>) -> UriParts {
    UriParts { scheme: scheme.map(|s| s.to_string()), host: host.map(|s| s.to_string()), port }
}

#[test]
fn plan_for_https_domain() {
    let p = HttpClient::plan(&uri(Some("https"), Some("main.s3.amazonaws.com"), None)).ok().unwrap();
    assert!(p.is_https);
    assert_eq!(p.port, 443);
    assert!(!p.is_custom_port);
    assert_eq!(p.pretty_host, "https://main.s3.amazonaws.com");
    assert_eq!(p.host_header, "main.s3.amazonaws.com");
    match p.target {
        ServerTarget::Dns(name) => assert_eq!(name, "main.s3.amazonaws.com"),
        ServerTarget::Ip(_) => panic!("expected a DNS name"),
    }
}

#[test]
fn plan_for_http_ip_with_port() {
    let p = HttpClient::plan(&uri(Some("http"), Some("127.0.0.1"), Some(9000))).ok().unwrap();
    assert!(!p.is_https);
    assert_eq!(p.port, 9000);
    assert!(p.is_custom_port);
    assert_eq!(p.pretty_host, "http://127.0.0.1:9000");
    assert_eq!(p.host_header, "127.0.0.1:9000");
    assert_eq!(p.pretty_host, format!("http://{}", p.host_header));
    match p.target {
        ServerTarget::Ip(ip) => assert_eq!(ip, IpAddress::V4([127, 0, 0, 1])),
        ServerTarget::Dns(_) => panic!("expected an IP address"),
    }
}

#[test]
fn plan_defaults_to_https_and_plain_http_port() {
    let p = HttpClient::plan(&uri(None, Some("example.com"), None)).ok().unwrap();
    assert!(p.is_https);
    let p = HttpClient::plan(&uri(Some("http"), Some("example.com"), None)).ok().unwrap();
    assert_eq!(p.port, 80);
    assert_eq!(p.pretty_host, "http://example.com");
}

#[test]
fn plan_for_ipv6() {
    let p = HttpClient::plan(&uri(Some("http"), Some("[::1]"), Some(9000))).ok().unwrap();
    let mut loopback = [0u8; 16];
    loopback[15] = 1;
    match p.target {
        ServerTarget::Ip(ip) => assert_eq!(ip, IpAddress::V6(loopback)),
        ServerTarget::Dns(_) => panic!("expected an IP address"),
    }
    assert!(!p.is_https);
    assert_eq!(p.port, 9000);
    assert_eq!(p.pretty_host, "http://[::1]:9000");
    assert_eq!(p.host_header, "[::1]:9000");
    assert_eq!(p.host, "[::1]");
    let e = HttpClient::plan(&uri(Some("http"), Some("[not an ip]"), None)).err().unwrap();
    assert_eq!(e.to_text(), "Failed to parse [not an ip] as ip or domain name.");
}

#[test]
fn plan_errors() {
    let e = HttpClient::plan(&uri(Some("https"), None, None)).err().unwrap();
    assert_eq!(e.to_text(), "Request uri is required to contain a host");
    let e = HttpClient::plan(&uri(Some("https"), Some("bad\u{1}host"), None)).err().unwrap();
    assert_eq!(e.to_text(), "A host may only contain valid http characters");
    let e = HttpClient::plan(&uri(Some("https"), Some("not a host"), None)).err().unwrap();
    assert_eq!(e.to_text(), "Failed to parse not a host as ip or domain name.");
}

#[test]
fn host_check_accepts_tabs_and_rejects_delete() {
    assert!(HttpClient::request_host(&uri(None, Some("a\tb"), None)).is_ok());
    assert!(HttpClient::request_host(&uri(None, Some("a\u{7f}b"), None)).is_err());
    assert!(HttpClient::request_host(&uri(None, Some("ümlaut.de"), None)).is_ok());
}

#[test]
fn unreachable_attempts_report_unreachable() {
    let mut a = ConnectAttempts::new("https://s3.example.com".to_string());
    a.record_failure(AttemptFailure::Unreachable);
    a.record_failure(AttemptFailure::Unreachable);
    assert_eq!(a.into_error().to_text(), "`https://s3.example.com` is unreachable");
}

#[test]
fn failed_attempts_are_listed() {
    let mut a = ConnectAttempts::new("https://s3.example.com".to_string());
    a.record_failure(AttemptFailure::Failed("connection refused".to_string()));
    a.record_failure(AttemptFailure::Unreachable);
    a.record_failure(AttemptFailure::Failed("tls handshake failed".to_string()));
    assert_eq!(
        a.into_error().to_text(),
        "Failed to establish connection with `https://s3.example.com` reason: [connection refused, tls handshake failed]"
    );
}

#[test]
fn protocol_negotiation() {
    let p = alpn_protocols();
    assert_eq!(p, vec![b"h2".to_vec(), b"http/1.1".to_vec()]);
    assert!(negotiates_http2(true, Some(b"h2")));
    assert!(!negotiates_http2(true, Some(b"http/1.1")));
    assert!(!negotiates_http2(true, None));
    assert!(!negotiates_http2(false, Some(b"h2")));
    assert!(needs_host_header(false, false));
    assert!(!needs_host_header(false, true));
    assert!(!needs_host_header(true, false));
}

#[test]
fn unreachable_addresses_are_expected() {
    assert!(matches!(AttemptFailure::classify(FailureCause::HostUnreachable, "x".to_string()), AttemptFailure::Unreachable));
    assert!(matches!(AttemptFailure::classify(FailureCause::NetworkUnreachable, "x".to_string()), AttemptFailure::Unreachable));
    match AttemptFailure::classify(FailureCause::OtherIo, "connection refused".to_string()) {
        AttemptFailure::Failed(t) => assert_eq!(t, "connection refused"),
        AttemptFailure::Unreachable => panic!("expected a kept failure"),
    }
    assert!(matches!(AttemptFailure::classify(FailureCause::NotIo, "tls".to_string()), AttemptFailure::Failed(_)));
}

#[test]
fn server_names_drop_ipv6_brackets() {
    assert_eq!(server_name_of("[::1]"), "::1");
    assert_eq!(server_name_of("[2001:db8::1]"), "2001:db8::1");
    assert_eq!(server_name_of("example.com"), "example.com");
    assert_eq!(server_name_of("[]"), "");
    assert_eq!(server_name_of("["), "[");
    assert_eq!(server_name_of("[x"), "[x");
}
