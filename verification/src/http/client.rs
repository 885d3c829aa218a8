use vstd::prelude::*;
use vstd::string::*;
use vstd::utf8::*;

use rustls::pki_types::{IpAddr as TlsIpAddr, ServerName};

use crate::net::IpAddress;
use crate::result::{Error, ErrorKind, error_of};
use crate::text::{bracketed_list, bracketed_list_string, decimal, decimal_string, opt_text};

verus! {

/// The parts of a request's URI that decide where it is sent.
pub struct UriParts {
    pub scheme: Option<String>,
    pub host: Option<String>,
    pub port: Option<u16>,
}

/// The server a host names: an IP address, or a DNS name to be resolved.
pub enum ServerTarget {
    Ip(IpAddress),
    Dns(String),
}

pub enum ServerTargetView {
    Ip(IpAddress),
    Dns(Seq<char>),
}

impl View for ServerTarget {
    type V = ServerTargetView;

    open spec fn view(&self) -> ServerTargetView {
        match self {
            ServerTarget::Ip(ip) => ServerTargetView::Ip(*ip),
            ServerTarget::Dns(name) => ServerTargetView::Dns(name@),
        }
    }
}

pub open spec fn opt_target(t: Option<ServerTarget>) -> Option<ServerTargetView> {
    match t {
        Some(x) => Some(x@),
        None => None,
    }
}

/// What TLS server-name parsing makes of a host: a DNS name, else an IP
/// address, else nothing.
pub uninterp spec fn server_name_target(host: Seq<char>) -> Option<ServerTargetView>;

/// Parses a host with rustls' `ServerName::try_from` (from `rustls::pki_types`):
/// the host as a valid DNS name if it is one, else as an IP address, else
/// nothing. The contract names the result and states that a DNS name is the
/// host's own text, which the source shows (the name borrows the string it was
/// checked from); which hosts are valid DNS names is left unsaid.
#[verifier::external_body]
fn parse_server_name(host: &str) -> (r: Option<ServerTarget>)
    ensures
        opt_target(r) == server_name_target(host@),
        r matches Some(ServerTarget::Dns(name)) ==> name@ == host@,
{
    match ServerName::try_from(host) {
        Ok(ServerName::DnsName(name)) => Some(ServerTarget::Dns(name.as_ref().to_string())),
        Ok(ServerName::IpAddress(TlsIpAddr::V4(a))) => Some(ServerTarget::Ip(IpAddress::V4(*a.as_ref()))),
        Ok(ServerName::IpAddress(TlsIpAddr::V6(a))) => Some(ServerTarget::Ip(IpAddress::V6(*a.as_ref()))),
        _ => None,
    }
}

/// The text a host is parsed from as a TLS server name: an IPv6 literal
/// written in brackets, as URIs write it, without its brackets; any other host
/// as it is.
pub open spec fn server_name_text(host: Seq<char>) -> Seq<char> {
    if host.len() >= 2 && host[0] == '[' && host[host.len() - 1] == ']' {
        host.subrange(1, host.len() - 1)
    } else {
        host
    }
}

/// The text a host is parsed from as a TLS server name.
pub fn server_name_of(host: &str) -> (r: String)
    ensures
        r@ == server_name_text(host@),
{
    let n = host.unicode_len();
    if n >= 2 && host.get_char(0) == '[' && host.get_char(n - 1) == ']' {
        String::from_str(host.substring_char(1, n - 1))
    } else {
        String::from_str(host)
    }
}

/// Where and how a request is sent.
pub struct RequestPlan {
    pub host: String,
    pub port: u16,
    pub is_https: bool,
    pub is_custom_port: bool,
    pub pretty_host: String,
    pub host_header: String,
    pub target: ServerTarget,
}

/// A byte that may stand in an HTTP header value: a visible or non-ASCII byte,
/// or a tab.
pub open spec fn http_byte(b: u8) -> bool {
    (b >= 32 && b != 127) || b == 9
}

/// A host whose UTF-8 encoding holds only bytes that may stand in a header.
pub open spec fn valid_host(host: Seq<char>) -> bool {
    forall|i: int| 0 <= i < encode_utf8(host).len() ==> http_byte(#[trigger] encode_utf8(host)[i])
}

/// A request goes over TLS unless its scheme is plain HTTP.
pub open spec fn uses_https(scheme: Option<Seq<char>>) -> bool {
    scheme != Some("http"@)
}

/// The port a request goes to: the URI's own, else the scheme's default.
pub open spec fn port_for(https: bool, port: Option<u16>) -> u16 {
    match port {
        Some(p) => p,
        None => if https { 443 } else { 80 },
    }
}

/// The `:port` suffix of a host, present only for a port the URI names.
pub open spec fn port_suffix(port: Option<u16>) -> Seq<char> {
    match port {
        Some(p) => ":"@ + decimal(p as nat),
        None => Seq::empty(),
    }
}

/// The host as it is shown in messages: scheme, host, and a named port.
pub open spec fn pretty_host_text(https: bool, host: Seq<char>, port: Option<u16>) -> Seq<char> {
    (if https { "https://"@ } else { "http://"@ }) + host + port_suffix(port)
}

/// The value of the `Host` header: the host, and a named port.
pub open spec fn host_header_text(host: Seq<char>, port: Option<u16>) -> Seq<char> {
    host + port_suffix(port)
}

pub open spec fn missing_host_text() -> Seq<char> {
    "Request uri is required to contain a host"@
}

pub open spec fn invalid_host_text() -> Seq<char> {
    "A host may only contain valid http characters"@
}

pub open spec fn unparsable_host_text(host: Seq<char>) -> Seq<char> {
    "Failed to parse "@ + host + " as ip or domain name."@
}

/// The plan for a request to the given host, given what its host parsed to.
pub open spec fn plan_matches(
    plan: RequestPlan,
    scheme: Option<Seq<char>>,
    host: Seq<char>,
    port: Option<u16>,
    target: ServerTargetView,
) -> bool {
    let https = uses_https(scheme);
    &&& plan.host@ == host
    &&& plan.is_https == https
    &&& plan.port == port_for(https, port)
    &&& plan.is_custom_port == (port is Some)
    &&& plan.pretty_host@ == pretty_host_text(https, host, port)
    &&& plan.host_header@ == host_header_text(host, port)
    &&& plan.target@ == target
}

/// The client the module sends its S3 requests through.
pub struct HttpClient;

fn is_valid_name(s: &str) -> (r: bool)
    ensures
        r == valid_host(s@),
{
    let bytes = s.as_bytes();
    let mut i: usize = 0;
    while i < bytes.len()
        invariant
            i <= bytes.len(),
            bytes@ == encode_utf8(s@),
            forall|j: int| 0 <= j < i ==> http_byte(#[trigger] bytes@[j]),
        decreases bytes.len() - i,
    {
        let b = bytes[i];
        if !((b >= 32 && b != 127) || b == 9) {
            assert(!http_byte(bytes@[i as int]));
            return false;
        }
        i = i + 1;
    }
    true
}

impl HttpClient {
    /// The host a request is sent to: the URI must name one, made only of
    /// bytes that may stand in a header.
    pub fn request_host(uri: &UriParts) -> (r: Result<String, Error>)
        ensures
            uri.host is None ==> (r matches Err(e) && e@ == error_of(missing_host_text(), ErrorKind::Main)),
            uri.host matches Some(h) ==> if valid_host(h@) {
                r matches Ok(s) && s@ == h@
            } else {
                r matches Err(e) && e@ == error_of(invalid_host_text(), ErrorKind::Main)
            },
    {
        match &uri.host {
            None => Err(Error::msg("Request uri is required to contain a host")),
            Some(h) => {
                if is_valid_name(h.as_str()) {
                    Ok(h.clone())
                } else {
                    Err(Error::msg("A host may only contain valid http characters"))
                }
            },
        }
    }

    /// The plan for a request to a checked host, given what the host parsed to
    /// as a TLS server name; a host that is neither a DNS name nor an IP
    /// address is an error.
    pub fn plan_for_target(uri: &UriParts, host: String, target: Option<ServerTarget>) -> (r: Result<RequestPlan, Error>)
        ensures
            target is None ==> (r matches Err(e) && e@ == error_of(unparsable_host_text(host@), ErrorKind::Main)),
            target matches Some(t) ==> (r matches Ok(plan)
                && plan_matches(plan, opt_text(uri.scheme), host@, uri.port, t@)),
    {
        let t = match target {
            Some(t) => t,
            None => {
                return Err(Error::msg2("Failed to parse ", host.as_str()).with_suffix(" as ip or domain name."));
            },
        };
        let is_https = match &uri.scheme {
            Some(s) => {
                let http = String::from_str("http");
                !(*s == http)
            },
            None => true,
        };
        let (port, is_custom) = match uri.port {
            Some(p) => (p, true),
            None => (if is_https { 443u16 } else { 80u16 }, false),
        };
        let mut pretty_host = String::from_str(if is_https { "https://" } else { "http://" });
        pretty_host.append(host.as_str());
        let mut host_header = host.clone();
        if is_custom {
            let digits = decimal_string(port as u64);
            pretty_host.append(":");
            pretty_host.append(digits.as_str());
            host_header.append(":");
            host_header.append(digits.as_str());
        }
        proof {
            reveal_strlit("http");
            assert(pretty_host@ =~= pretty_host_text(is_https, host@, uri.port));
            assert(host_header@ =~= host_header_text(host@, uri.port));
        }
        Ok(RequestPlan {
            host,
            port,
            is_https,
            is_custom_port: is_custom,
            pretty_host,
            host_header,
            target: t,
        })
    }

    /// The plan for a request: its host is checked, then parsed as a TLS
    /// server name (an IPv6 literal without its brackets), and the rest
    /// follows from the URI; the host is shown and sent in the `Host` header as
    /// the URI writes it.
    pub fn plan(uri: &UriParts) -> (r: Result<RequestPlan, Error>)
        ensures
            uri.host is None ==> (r matches Err(e) && e@ == error_of(missing_host_text(), ErrorKind::Main)),
            uri.host matches Some(h) ==> if !valid_host(h@) {
                r matches Err(e) && e@ == error_of(invalid_host_text(), ErrorKind::Main)
            } else {
                match server_name_target(server_name_text(h@)) {
                    None => r matches Err(e) && e@ == error_of(unparsable_host_text(h@), ErrorKind::Main),
                    Some(t) => r matches Ok(plan) && plan_matches(plan, opt_text(uri.scheme), h@, uri.port, t),
                }
            },
    {
        let host = Self::request_host(uri)?;
        let name = server_name_of(host.as_str());
        let target = parse_server_name(name.as_str());
        Self::plan_for_target(uri, host, target)
    }
}

/// How one connection attempt failed: the address was unreachable, or it
/// failed otherwise, with the failure's text.
pub enum AttemptFailure {
    Unreachable,
    Failed(String),
}

/// What a failed connection attempt reported: an I/O error of one of the
/// kinds that tell an address cannot be reached, another I/O error, or a
/// failure that is no I/O error.
#[derive(Debug, Clone, Copy, PartialEq, Eq, Structural)]
pub enum FailureCause {
    HostUnreachable,
    NetworkUnreachable,
    OtherIo,
    NotIo,
}

impl AttemptFailure {
    /// Sorts a failed attempt: an unreachable host or network is expected
    /// when a host has several addresses; anything else is a failure, kept
    /// with its text.
    pub fn classify(cause: FailureCause, text: String) -> (r: AttemptFailure)
        ensures
            (cause is HostUnreachable || cause is NetworkUnreachable) ==> r is Unreachable,
            !(cause is HostUnreachable || cause is NetworkUnreachable) ==> (r matches AttemptFailure::Failed(t)
                && t == text),
    {
        match cause {
            FailureCause::HostUnreachable | FailureCause::NetworkUnreachable => AttemptFailure::Unreachable,
            _ => AttemptFailure::Failed(text),
        }
    }
}

pub enum AttemptFailureView {
    Unreachable,
    Failed(Seq<char>),
}

impl View for AttemptFailure {
    type V = AttemptFailureView;

    open spec fn view(&self) -> AttemptFailureView {
        match self {
            AttemptFailure::Unreachable => AttemptFailureView::Unreachable,
            AttemptFailure::Failed(t) => AttemptFailureView::Failed(t@),
        }
    }
}

/// The failures kept out of a run of failed attempts: the texts of those that
/// were not unreachable addresses, in order.
pub open spec fn kept_failures(fs: Seq<AttemptFailureView>) -> Seq<Seq<char>>
    decreases fs.len(),
{
    if fs.len() == 0 {
        Seq::empty()
    } else {
        let rest = kept_failures(fs.drop_last());
        match fs.last() {
            AttemptFailureView::Unreachable => rest,
            AttemptFailureView::Failed(t) => rest.push(t),
        }
    }
}

/// What a single failed attempt keeps: its text, unless its address was
/// unreachable.
pub proof fn lemma_kept_single(f: AttemptFailureView)
    ensures
        kept_failures(seq![f]) == match f {
            AttemptFailureView::Unreachable => Seq::<Seq<char>>::empty(),
            AttemptFailureView::Failed(t) => seq![t],
        },
{
    assert(seq![f].drop_last() =~= Seq::<AttemptFailureView>::empty());
    reveal_with_fuel(kept_failures, 2);
    assert(kept_failures(seq![f]) =~= match f {
        AttemptFailureView::Unreachable => Seq::<Seq<char>>::empty(),
        AttemptFailureView::Failed(t) => seq![t],
    });
}

/// The failures of the connection attempts to a host so far. Unreachable
/// addresses are expected when a host has several, and are not kept.
pub struct ConnectAttempts {
    pub pretty_host: String,
    pub errors: Vec<String>,
}

pub open spec fn texts(v: Seq<String>) -> Seq<Seq<char>> {
    v.map_values(|t: String| t@)
}

/// The error when no attempt connected: with no kept failure the host is
/// unreachable, otherwise the kept failures are listed.
pub open spec fn connect_error_text(pretty_host: Seq<char>, errors: Seq<Seq<char>>) -> Seq<char> {
    if errors.len() == 0 {
        "`"@ + pretty_host + "` is unreachable"@
    } else {
        "Failed to establish connection with `"@ + pretty_host + "` reason: "@ + bracketed_list(errors)
    }
}

impl ConnectAttempts {
    /// No attempt has failed yet.
    pub fn new(pretty_host: String) -> (r: ConnectAttempts)
        ensures
            r.pretty_host == pretty_host,
            r.errors@.len() == 0,
    {
        ConnectAttempts { pretty_host, errors: Vec::new() }
    }

    /// Records a failed attempt; an unreachable address is dropped.
    pub fn record_failure(&mut self, failure: AttemptFailure)
        ensures
            final(self).pretty_host == old(self).pretty_host,
            failure is Unreachable ==> final(self).errors@ == old(self).errors@,
            failure matches AttemptFailure::Failed(t) ==> final(self).errors@ == old(self).errors@.push(t),
            texts(final(self).errors@) == texts(old(self).errors@) + kept_failures(seq![failure@]),
    {
        let ghost before = self.errors@;
        let ghost f = failure@;
        proof {
            lemma_kept_single(f);
        }
        match failure {
            AttemptFailure::Unreachable => {
                assert(texts(before) + kept_failures(seq![f]) =~= texts(before));
            },
            AttemptFailure::Failed(t) => {
                self.errors.push(t);
                assert(texts(self.errors@) =~= texts(before) + kept_failures(seq![f]));
            },
        }
    }

    /// The error once every attempt has failed.
    pub fn into_error(self) -> (e: Error)
        ensures
            e@ == error_of(connect_error_text(self.pretty_host@, texts(self.errors@)), ErrorKind::Main),
    {
        let mut text;
        if self.errors.len() == 0 {
            text = String::from_str("`");
            text.append(self.pretty_host.as_str());
            text.append("` is unreachable");
        } else {
            let list = bracketed_list_string(&self.errors);
            text = String::from_str("Failed to establish connection with `");
            text.append(self.pretty_host.as_str());
            text.append("` reason: ");
            text.append(list.as_str());
        }
        Error { source: text, kind: ErrorKind::Main }
    }
}

} // verus!
