use vstd::prelude::*;

use crate::aws_sdk::client::AwsClientConfig;
use crate::dns::{DnsClient, asks_exactly, default_servers};
use crate::net::SocketAddress;

verus! {

/// A configured name-server, as it was read: an address, or a text that is not
/// one.
pub enum NameServerInput {
    Parsed(SocketAddress),
    Unparsable(String),
}

/// The module's configuration, as read from `$s3_module_config`.
pub struct Config {
    pub name_servers: Option<Vec<NameServerInput>>,
    pub enable_default_name_servers: Option<bool>,
    pub endpoint_url: String,
    pub public_endpoint_url: Option<String>,
    pub region: Option<String>,
    pub access_key_id: String,
    pub secret_access_key: String,
    pub force_path_style: Option<bool>,
    pub public_force_path_style: Option<bool>,
}

/// What the module does about DNS at start: keep the resolver that asks the
/// built-in name-servers, or install one of its own.
pub enum DnsSetup {
    KeepDefault,
    Install(DnsClient),
}

/// Everything the module sets up at start.
pub struct InitPlan {
    pub dns: DnsSetup,
    pub rejected_name_servers: Vec<String>,
    pub aws: AwsClientConfig,
}

/// The addresses among the configured name-servers, in order.
pub open spec fn parsed_servers(inputs: Seq<NameServerInput>) -> Seq<SocketAddress>
    decreases inputs.len(),
{
    if inputs.len() == 0 {
        Seq::empty()
    } else {
        let rest = parsed_servers(inputs.drop_last());
        match inputs.last() {
            NameServerInput::Parsed(a) => rest.push(a),
            NameServerInput::Unparsable(_) => rest,
        }
    }
}

/// The texts among the configured name-servers that are not addresses, in order.
pub open spec fn rejected_servers(inputs: Seq<NameServerInput>) -> Seq<Seq<char>>
    decreases inputs.len(),
{
    if inputs.len() == 0 {
        Seq::empty()
    } else {
        let rest = rejected_servers(inputs.drop_last());
        match inputs.last() {
            NameServerInput::Parsed(_) => rest,
            NameServerInput::Unparsable(t) => rest.push(t@),
        }
    }
}

/// Whether the built-in name-servers are asked: unless switched off.
pub open spec fn defaults_enabled(flag: Option<bool>) -> bool {
    match flag {
        Some(b) => b,
        None => true,
    }
}

/// The DNS set-up a configuration asks for. Configured name-servers are asked
/// first, then the built-in ones unless those are switched off; with no
/// name-servers configured, switching the built-in ones off leaves a resolver
/// that asks none, and otherwise the built-in resolver is kept.
pub open spec fn dns_setup_for(
    name_servers: Option<Seq<NameServerInput>>,
    enable_defaults: Option<bool>,
    setup: DnsSetup,
) -> bool {
    match name_servers {
        Some(inputs) => setup matches DnsSetup::Install(client) && if defaults_enabled(enable_defaults) {
            asks_exactly(client, parsed_servers(inputs) + default_servers())
        } else {
            asks_exactly(client, parsed_servers(inputs))
        },
        None => if defaults_enabled(enable_defaults) {
            setup is KeepDefault
        } else {
            setup matches DnsSetup::Install(client) && asks_exactly(client, Seq::empty())
        },
    }
}

fn split_name_servers(inputs: &Vec<NameServerInput>) -> (r: (Vec<SocketAddress>, Vec<String>))
    ensures
        r.0@ == parsed_servers(inputs@),
        r.1@.map_values(|t: String| t@) == rejected_servers(inputs@),
{
    let mut parsed: Vec<SocketAddress> = Vec::new();
    let mut rejected: Vec<String> = Vec::new();
    let mut i: usize = 0;
    while i < inputs.len()
        invariant
            i <= inputs.len(),
            parsed@ == parsed_servers(inputs@.take(i as int)),
            rejected@.map_values(|t: String| t@) == rejected_servers(inputs@.take(i as int)),
        decreases inputs.len() - i,
    {
        proof {
            assert(inputs@.take(i + 1).drop_last() =~= inputs@.take(i as int));
            assert(inputs@.take(i + 1).last() == inputs@[i as int]);
        }
        match &inputs[i] {
            NameServerInput::Parsed(a) => {
                parsed.push(*a);
            },
            NameServerInput::Unparsable(t) => {
                let ghost before = rejected@;
                rejected.push(t.clone());
                assert(rejected@.map_values(|t: String| t@) =~= before.map_values(|t: String| t@).push(t@));
            },
        }
        i = i + 1;
    }
    assert(inputs@.take(inputs.len() as int) =~= inputs@);
    (parsed, rejected)
}

/// What the module sets up at start from its configuration: its DNS resolver,
/// the configured name-servers it had to skip, and the S3 connection settings.
pub fn init_plan(conf: Config) -> (r: InitPlan)
    ensures
        dns_setup_for(
            match conf.name_servers { Some(v) => Some(v@), None => None },
            conf.enable_default_name_servers,
            r.dns,
        ),
        conf.name_servers matches Some(v) ==> r.rejected_name_servers@.map_values(|t: String| t@)
            == rejected_servers(v@),
        conf.name_servers is None ==> r.rejected_name_servers@.len() == 0,
        r.aws.endpoint_url == conf.endpoint_url,
        r.aws.public_endpoint_url == conf.public_endpoint_url,
        r.aws.region == conf.region,
        r.aws.access_key_id == conf.access_key_id,
        r.aws.secret_access_key == conf.secret_access_key,
        r.aws.force_path_style == conf.force_path_style,
        r.aws.public_force_path_style == conf.public_force_path_style,
{
    let with_defaults = match conf.enable_default_name_servers {
        Some(b) => b,
        None => true,
    };
    let (dns, rejected) = match conf.name_servers {
        Some(inputs) => {
            let (parsed, rejected) = split_name_servers(&inputs);
            let client = if with_defaults {
                DnsClient::new(parsed.as_slice())
            } else {
                DnsClient::without_default_ns(parsed.as_slice())
            };
            (DnsSetup::Install(client), rejected)
        },
        None => {
            if !with_defaults {
                let none: Vec<SocketAddress> = Vec::new();
                proof { assert(none@ =~= Seq::<SocketAddress>::empty()); }
                (DnsSetup::Install(DnsClient::without_default_ns(none.as_slice())), Vec::new())
            } else {
                (DnsSetup::KeepDefault, Vec::new())
            }
        },
    };
    InitPlan {
        dns,
        rejected_name_servers: rejected,
        aws: AwsClientConfig {
            endpoint_url: conf.endpoint_url,
            public_endpoint_url: conf.public_endpoint_url,
            region: conf.region,
            access_key_id: conf.access_key_id,
            secret_access_key: conf.secret_access_key,
            force_path_style: conf.force_path_style,
            public_force_path_style: conf.public_force_path_style,
        },
    }
}

} // verus!
