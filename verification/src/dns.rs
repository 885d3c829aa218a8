use vstd::prelude::*;

use crate::net::{IpAddress, SocketAddress};
use crate::result::{Error, ErrorKind, error_of};

verus! {

/// One name-server the resolver asks, over TCP. A `None` port leaves the
/// resolver's default DNS port in place.
#[derive(Debug, Clone, Copy, PartialEq, Eq)]
pub struct NameServerEntry {
    pub ip: IpAddress,
    pub port: Option<u16>,
    pub trust_negative_responses: bool,
}

/// How the module's DNS resolver is set up: the name-servers it asks, in the
/// order they were given, and how many of them it asks at once.
pub struct DnsClient {
    pub name_servers: Vec<NameServerEntry>,
    pub user_provided_order: bool,
    pub num_concurrent_reqs: usize,
}

/// The built-in name-servers: Docker's embedded DNS server and systemd-resolved.
pub open spec fn default_servers() -> Seq<SocketAddress> {
    seq![
        SocketAddress { ip: IpAddress::V4([127u8, 0u8, 0u8, 11u8]), port: 53 },
        SocketAddress { ip: IpAddress::V4([127u8, 0u8, 0u8, 53u8]), port: 53 },
    ]
}

/// The resolver entry for one name-server address: asked over TCP, trusting
/// negative answers; port 0 stands for the default DNS port.
pub open spec fn entry_for(addr: SocketAddress) -> NameServerEntry {
    NameServerEntry {
        ip: addr.ip,
        port: if addr.port != 0 { Some(addr.port) } else { None },
        trust_negative_responses: true,
    }
}

/// The resolver entries for a list of name-server addresses, in order.
pub open spec fn entries_for(addrs: Seq<SocketAddress>) -> Seq<NameServerEntry> {
    addrs.map_values(|a: SocketAddress| entry_for(a))
}

/// A resolver asks the given name-servers, in the given order, all at once.
pub open spec fn asks_exactly(client: DnsClient, addrs: Seq<SocketAddress>) -> bool {
    &&& client.name_servers@ == entries_for(addrs)
    &&& client.user_provided_order
    &&& client.num_concurrent_reqs == addrs.len()
}

/// The text of the error for a host that resolved to no address.
pub open spec fn unresolved_text(host: Seq<char>) -> Seq<char> {
    "Could not resolve host `"@ + host + "`"@
}

impl DnsClient {
    /// The built-in name-servers.
    pub fn default_name_servers() -> (r: Vec<SocketAddress>)
        ensures
            r@ == default_servers(),
    {
        let r = vec![
            SocketAddress { ip: IpAddress::V4([127u8, 0u8, 0u8, 11u8]), port: 53 },
            SocketAddress { ip: IpAddress::V4([127u8, 0u8, 0u8, 53u8]), port: 53 },
        ];
        assert(r@ =~= default_servers());
        r
    }

    /// A resolver that asks only the built-in name-servers.
    pub fn default() -> (r: DnsClient)
        ensures
            asks_exactly(r, default_servers()),
    {
        let defaults = Self::default_name_servers();
        Self::without_default_ns(defaults.as_slice())
    }

    /// A resolver that asks the given name-servers, then the built-in ones.
    pub fn new(name_servers: &[SocketAddress]) -> (r: DnsClient)
        ensures
            asks_exactly(r, name_servers@ + default_servers()),
    {
        let mut all: Vec<SocketAddress> = Vec::new();
        let mut i: usize = 0;
        while i < name_servers.len()
            invariant
                i <= name_servers.len(),
                all@ == name_servers@.take(i as int),
            decreases name_servers.len() - i,
        {
            all.push(name_servers[i]);
            i = i + 1;
            assert(all@ =~= name_servers@.take(i as int));
        }
        assert(all@ =~= name_servers@);
        let defaults = Self::default_name_servers();
        let mut j: usize = 0;
        while j < defaults.len()
            invariant
                j <= defaults.len(),
                defaults@ == default_servers(),
                all@ == name_servers@ + defaults@.take(j as int),
            decreases defaults.len() - j,
        {
            all.push(defaults[j]);
            j = j + 1;
            assert(all@ =~= name_servers@ + defaults@.take(j as int));
        }
        assert(defaults@.take(defaults.len() as int) =~= defaults@);
        Self::without_default_ns(all.as_slice())
    }

    /// A resolver that asks only the given name-servers.
    pub fn without_default_ns(name_servers: &[SocketAddress]) -> (r: DnsClient)
        ensures
            asks_exactly(r, name_servers@),
    {
        let mut entries: Vec<NameServerEntry> = Vec::new();
        let mut i: usize = 0;
        while i < name_servers.len()
            invariant
                i <= name_servers.len(),
                entries@ == entries_for(name_servers@.take(i as int)),
            decreases name_servers.len() - i,
        {
            let addr = name_servers[i];
            let port = if addr.port != 0 { Some(addr.port) } else { None };
            entries.push(NameServerEntry { ip: addr.ip, port, trust_negative_responses: true });
            i = i + 1;
            assert(entries@ =~= entries_for(name_servers@.take(i as int)));
        }
        assert(name_servers@.take(name_servers.len() as int) =~= name_servers@);
        let count = entries.len();
        DnsClient { name_servers: entries, user_provided_order: true, num_concurrent_reqs: count }
    }

    /// The addresses a host resolved to; a host that resolved to none is an
    /// error.
    pub fn resolved(host: &str, addrs: Vec<IpAddress>) -> (r: Result<Vec<IpAddress>, Error>)
        ensures
            addrs@.len() > 0 ==> (r matches Ok(a) && a@ == addrs@),
            addrs@.len() == 0 ==> (r matches Err(e)
                && e@ == error_of(unresolved_text(host@), ErrorKind::Main)),
    {
        if addrs.len() == 0 {
            let mut text = String::from_str("Could not resolve host `");
            text.append(host);
            text.append("`");
            Err(Error { source: text, kind: ErrorKind::Main })
        } else {
            Ok(addrs)
        }
    }
}

} // verus!
