use vstd::prelude::*;

verus! {

/// The ALPN identifier of HTTP/2.
pub open spec fn h2_protocol() -> Seq<u8> {
    seq![104u8, 50u8]
}

/// The ALPN identifier of HTTP/1.1.
pub open spec fn http11_protocol() -> Seq<u8> {
    seq![104u8, 116u8, 116u8, 112u8, 47u8, 49u8, 46u8, 49u8]
}

/// The protocols offered during the TLS handshake, HTTP/2 first.
pub fn alpn_protocols() -> (r: Vec<Vec<u8>>)
    ensures
        r@.len() == 2,
        r@[0]@ == h2_protocol(),
        r@[1]@ == http11_protocol(),
{
    let h2: Vec<u8> = vec![104u8, 50u8];
    let http11: Vec<u8> = vec![104u8, 116u8, 116u8, 112u8, 47u8, 49u8, 46u8, 49u8];
    assert(h2@ =~= h2_protocol());
    assert(http11@ =~= http11_protocol());
    vec![h2, http11]
}

/// A connection speaks HTTP/2 exactly when it runs over TLS and the server
/// agreed to HTTP/2 during the handshake; otherwise it speaks HTTP/1.1.
pub fn negotiates_http2(use_tls: bool, alpn: Option<&[u8]>) -> (r: bool)
    ensures
        r == (use_tls && (alpn matches Some(p) && p@ == h2_protocol())),
{
    if !use_tls {
        return false;
    }
    match alpn {
        None => false,
        Some(p) => {
            let r = p.len() == 2 && p[0] == 104u8 && p[1] == 50u8;
            proof {
                if r {
                    assert(p@ =~= h2_protocol());
                }
            }
            r
        },
    }
}

/// HTTP/1.1 requires a `Host` header in every request: one is added to a
/// request sent over HTTP/1.1 that has none; a request over HTTP/2 is sent as
/// it is.
pub fn needs_host_header(is_http2: bool, has_host: bool) -> (r: bool)
    ensures
        r == (!is_http2 && !has_host),
{
    !is_http2 && !has_host
}

} // verus!
