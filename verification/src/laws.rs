use vstd::prelude::*;

use crate::aws_sdk::client::{AwsClientConfigView, public_path_style, settings_for};
use crate::config::{DnsSetup, NameServerInput, dns_setup_for, parsed_servers};
use crate::dns::asks_exactly;
use crate::dns::{default_servers, entries_for, entry_for};
use crate::http::client::{
    AttemptFailureView, connect_error_text, host_header_text, kept_failures, lemma_kept_single, pretty_host_text,
    server_name_text, valid_host, http_byte,
};
use crate::net::SocketAddress;
use crate::result::{
    ErrorKind, ErrorSourceView, ErrorView, SdkFailureView, error_of, error_text, sdk_error, source_error,
};
use crate::presigning::within_one_week;
use crate::root::{deletion_outcome, no_such_bucket_text};
use crate::result::SdkFailure;
use vstd::utf8::{encode_utf8, is_ascii_chars, is_ascii_chars_encode_utf8};
use crate::util::{expiry_outcome, latest_instant, rfc3339_utc};

verus! {

/// An error wrapped with a kind comes back out of the module's conversions as
/// that error, with that kind and its source unchanged: whether it reaches the
/// module's error type directly, or as the cause of a failed connection of the
/// S3 SDK.
pub proof fn law_wrapped_error_comes_back(e: ErrorView, kind: ErrorKind)
    ensures
        source_error(ErrorSourceView::Wrapped(error_of(e.source, kind))) == error_of(e.source, kind),
        sdk_error(SdkFailureView::DispatchWrapped(error_of(e.source, kind))) == error_of(e.source, kind),
{
}

/// The text of an error always ends with its source's text, and is that text
/// alone exactly for errors of the main layer.
pub proof fn law_error_text_ends_with_source(e: ErrorView)
    ensures
        error_text(e).len() >= e.source.len(),
        error_text(e).subrange(error_text(e).len() - e.source.len(), error_text(e).len() as int) == e.source,
        (error_text(e) == e.source) <==> e.kind == ErrorKind::Main,
{
    reveal_strlit("[");
    reveal_strlit("] ");
    let t = error_text(e);
    if e.kind != ErrorKind::Main {
        assert(t.subrange(t.len() - e.source.len(), t.len() as int) =~= e.source);
        assert(t.len() > e.source.len());
    } else {
        assert(t.subrange(0, t.len() as int) =~= t);
    }
}

/// A failure of the HTTP client that reaches the S3 SDK as a connection
/// failure surfaces as an error of the AWS SDK layer that carries the client
/// error's text.
pub proof fn law_http_failure_surfaces_as_sdk_error(e: ErrorView)
    ensures
        sdk_error(SdkFailureView::DispatchOther(error_text(e))) == error_of(error_text(e), ErrorKind::AwsSdk),
        error_text(sdk_error(SdkFailureView::DispatchOther(error_text(e)))) == "[AwsSdk] "@ + error_text(e),
{
    assert("["@ + "AwsSdk"@ + "] "@ + error_text(e) =~= "[AwsSdk] "@ + error_text(e)) by {
        reveal_strlit("[");
        reveal_strlit("AwsSdk");
        reveal_strlit("] ");
        reveal_strlit("[AwsSdk] ");
    }
}

/// A resolver with configured name-servers asks them first, in the given
/// order, and then the built-in ones, each on the default DNS port.
pub proof fn law_builtin_name_servers_come_last(name_servers: Seq<SocketAddress>)
    ensures
        entries_for(name_servers + default_servers()) == entries_for(name_servers) + entries_for(default_servers()),
        entries_for(default_servers()).len() == 2,
        entries_for(default_servers())[0].port == Some(53u16),
        entries_for(default_servers())[1].port == Some(53u16),
{
    assert(entries_for(name_servers + default_servers()) =~= entries_for(name_servers) + entries_for(default_servers()));
}

/// A name-server address with port 0 is asked on the default DNS port; any
/// other port is kept.
pub proof fn law_port_zero_means_default(addr: SocketAddress)
    ensures
        (entry_for(addr).port is None) <==> addr.port == 0,
        addr.port != 0 ==> entry_for(addr).port == Some(addr.port),
{
}

/// The host shown in messages is the scheme followed by the `Host` header's
/// value.
pub proof fn law_pretty_host_is_scheme_and_host_header(https: bool, host: Seq<char>, port: Option<u16>)
    ensures
        pretty_host_text(https, host, port) == (if https { "https://"@ } else { "http://"@ }) + host_header_text(host, port),
{
    assert(pretty_host_text(https, host, port) =~= (if https { "https://"@ } else { "http://"@ }) + host_header_text(host, port));
}

/// An IPv6 literal in brackets is parsed as a server name without them, so
/// `[x]` reaches the same server as `x`; a host without brackets is parsed as
/// it is.
pub proof fn law_bracketed_host_parses_as_literal(x: Seq<char>)
    ensures
        server_name_text(seq!['['] + x + seq![']']) == x,
        !(x.len() >= 2 && x[0] == '[' && x[x.len() - 1] == ']') ==> server_name_text(x) == x,
{
    let h = seq!['['] + x + seq![']'];
    assert(h[0] == '[');
    assert(h[h.len() - 1] == ']');
    assert(h.subrange(1, h.len() - 1) =~= x);
}

/// Recording failed attempts one after the other keeps the failures of the
/// whole run: what a run followed by one more attempt keeps is what the run
/// kept, then what that attempt keeps.
pub proof fn law_kept_failures_compose(fs: Seq<AttemptFailureView>, f: AttemptFailureView)
    ensures
        kept_failures(fs.push(f)) == kept_failures(fs) + kept_failures(seq![f]),
{
    assert(fs.push(f).drop_last() =~= fs);
    lemma_kept_single(f);
    assert(kept_failures(fs.push(f)) =~= kept_failures(fs) + kept_failures(seq![f]));
}

/// A run of attempts that all failed on unreachable addresses keeps no
/// failure, so the host is reported as unreachable.
pub proof fn law_unreachable_runs_keep_nothing(fs: Seq<AttemptFailureView>, pretty_host: Seq<char>)
    requires
        forall|i: int| 0 <= i < fs.len() ==> #[trigger] fs[i] is Unreachable,
    ensures
        kept_failures(fs) == Seq::<Seq<char>>::empty(),
        connect_error_text(pretty_host, kept_failures(fs)) == "`"@ + pretty_host + "` is unreachable"@,
    decreases fs.len(),
{
    if fs.len() > 0 {
        let rest = fs.drop_last();
        assert forall|i: int| 0 <= i < rest.len() implies #[trigger] rest[i] is Unreachable by {
            assert(rest[i] == fs[i]);
        }
        law_unreachable_runs_keep_nothing(rest, pretty_host);
        assert(fs.last() is Unreachable);
    }
}

/// The client that signs URIs addresses buckets as the main client does,
/// unless its own path style is configured.
pub proof fn law_public_path_style_follows_main(c: AwsClientConfigView, url: Seq<char>)
    ensures
        c.public_force_path_style is None ==> settings_for(url, public_path_style(c), c).force_path_style
            == settings_for(c.endpoint_url, c.force_path_style, c).force_path_style,
        c.public_force_path_style matches Some(b) ==> settings_for(url, public_path_style(c), c).force_path_style == b,
        settings_for(url, public_path_style(c), c).region == settings_for(c.endpoint_url, c.force_path_style, c).region,
{
}

/// Signing fails only for a validity beyond one week: with a start time not
/// past the last writable instant by more than a week, any validity of at most
/// one week gives the timestamp of start plus validity.
pub proof fn law_signing_fails_only_beyond_a_week(start: u64, secs: u64, nanos: u32)
    requires
        within_one_week(secs, nanos),
        start + 604800 <= latest_instant(),
    ensures
        expiry_outcome(Some(start), secs) == Ok::<Seq<char>, Seq<char>>(rfc3339_utc(start + secs)),
{
}

/// A character that may stand in a host: any visible character, the space
/// and the tab; only the other control characters are refused.
pub open spec fn host_char_allowed(c: char) -> bool {
    c == '\t' || (' ' <= c && c != '\u{7f}')
}

/// A host written in ASCII passes the host check exactly when it holds no
/// control character but the tab: letters, digits, `.`, `-`, `:` and every
/// other visible character are accepted.
pub proof fn law_ascii_host_check(host: Seq<char>)
    requires
        is_ascii_chars(host),
    ensures
        valid_host(host) <==> forall|i: int| 0 <= i < host.len() ==> host_char_allowed(#[trigger] host[i]),
{
    is_ascii_chars_encode_utf8(host);
    let bytes = encode_utf8(host);
    if valid_host(host) {
        assert forall|i: int| 0 <= i < host.len() implies host_char_allowed(#[trigger] host[i]) by {
            assert(bytes[i] == host[i] as u8);
            assert(http_byte(bytes[i]));
        }
    } else {
        let i = choose|i: int| 0 <= i < bytes.len() && !http_byte(#[trigger] bytes[i]);
        assert(bytes[i] == host[i] as u8);
        assert(!host_char_allowed(host[i]));
    }
}

/// Leaving the switch for the built-in name-servers out is the same as turning
/// it on. Turned on, configured name-servers are asked first and the built-in
/// ones after them, and with none configured the built-in resolver is kept;
/// turned off, only the configured ones are asked, none if there are none.
pub proof fn law_default_name_servers_unless_off(name_servers: Option<Seq<NameServerInput>>, setup: DnsSetup)
    ensures
        dns_setup_for(name_servers, Some(true), setup) == dns_setup_for(name_servers, None, setup),
        name_servers matches Some(inputs) ==> (dns_setup_for(name_servers, Some(true), setup) <==> (setup matches DnsSetup::Install(c)
            && asks_exactly(c, parsed_servers(inputs) + crate::dns::default_servers()))),
        name_servers matches Some(inputs) ==> (dns_setup_for(name_servers, Some(false), setup) <==> (setup matches DnsSetup::Install(c)
            && asks_exactly(c, parsed_servers(inputs)))),
        name_servers is None ==> (dns_setup_for(name_servers, Some(true), setup) <==> setup is KeepDefault),
        name_servers is None ==> (dns_setup_for(name_servers, Some(false), setup) <==> (setup matches DnsSetup::Install(c)
            && asks_exactly(c, Seq::empty()))),
{
}

/// Every client is built from the configured credentials as given, the access
/// key as the key id and the secret as the secret, for the given endpoint, in
/// the configured region or else `us-east-1`, with path style addressing only
/// where it is asked for.
pub proof fn law_clients_use_configured_settings(url: Seq<char>, force_path_style: Option<bool>, c: AwsClientConfigView)
    ensures
        settings_for(url, force_path_style, c).access_key_id == c.access_key_id,
        settings_for(url, force_path_style, c).secret_access_key == c.secret_access_key,
        settings_for(url, force_path_style, c).endpoint_url == url,
        c.region matches Some(r) ==> settings_for(url, force_path_style, c).region == r,
        c.region is None ==> settings_for(url, force_path_style, c).region == "us-east-1"@,
        settings_for(url, force_path_style, c).force_path_style == (force_path_style == Some(true)),
{
}

/// A failed delete is reported as done only when the key does not exist. A
/// missing bucket is reported as such, and every other failure as the S3 SDK
/// reported it.
pub proof fn law_delete_fails_unless_key_missing(code: Option<Seq<char>>, failure: SdkFailure)
    ensures
        deletion_outcome(code, failure) is Ok <==> code == Some("NoSuchKey"@),
        code == Some("NoSuchBucket"@) ==> deletion_outcome(code, failure) == Err::<(), ErrorView>(
            error_of(no_such_bucket_text(), ErrorKind::Main)),
        code != Some("NoSuchKey"@) && code != Some("NoSuchBucket"@) ==> deletion_outcome(code, failure)
            == Err::<(), ErrorView>(sdk_error(failure@)),
{
    reveal_strlit("NoSuchKey");
    reveal_strlit("NoSuchBucket");
    assert("NoSuchBucket"@ != "NoSuchKey"@) by {
        assert("NoSuchBucket"@.len() != "NoSuchKey"@.len());
    }
}

} // verus!
