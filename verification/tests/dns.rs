use surreal_s3::aws_sdk::client::AwsClientConfig;
use surreal_s3::config::{Config, DnsSetup, NameServerInput, init_plan};
use surreal_s3::dns::DnsClient;
use surreal_s3::net::{IpAddress, SocketAddress};
use surreal_s3::result::ErrorKind;

fn v4(a: u8, b: u8, c: u8, d: u8, port: u16) -> SocketAddress {
    SocketAddress { ip: IpAddress::V4([a, b, c, d]), port }
}

#[test]
fn built_in_name_servers() {
    let d = DnsClient::default_name_servers();
    assert_eq!(d, vec![v4(127, 0, 0, 11, 53), v4(127, 0, 0, 53, 53)]);
    let c = DnsClient::default();
    assert_eq!(c.name_servers.len(), 2);
    assert_eq!(c.name_servers[0].ip, IpAddress::V4([127, 0, 0, 11]));
    assert_eq!(c.name_servers[1].port, Some(53));
    assert_eq!(c.num_concurrent_reqs, 2);
    assert!(c.user_provided_order);
}

#[test]
fn configured_name_servers_come_first() {
    let c = DnsClient::new(&[v4(1, 1, 1, 1, 53), v4(8, 8, 8, 8, 0)]);
    assert_eq!(c.name_servers.len(), 4);
    assert_eq!(c.name_servers[0].ip, IpAddress::V4([1, 1, 1, 1]));
    assert_eq!(c.name_servers[0].port, Some(53));
    assert_eq!(c.name_servers[1].ip, IpAddress::V4([8, 8, 8, 8]));
    assert_eq!(c.name_servers[1].port, None);
    assert_eq!(c.name_servers[2].ip, IpAddress::V4([127, 0, 0, 11]));
    assert_eq!(c.name_servers[3].ip, IpAddress::V4([127, 0, 0, 53]));
    assert!(c.name_servers.iter().all(|e| e.trust_negative_responses));
    assert_eq!(c.num_concurrent_reqs, 4);
}

#[test]
fn without_default_name_servers() {
    let c = DnsClient::without_default_ns(&[SocketAddress { ip: IpAddress::V6([0; 16]), port: 5353 }]);
    assert_eq!(c.name_servers.len(), 1);
    assert_eq!(c.name_servers[0].port, Some(5353));
    assert_eq!(c.num_concurrent_reqs, 1);
    let none = DnsClient::without_default_ns(&[]);
    assert!(none.name_servers.is_empty());
    assert_eq!(none.num_concurrent_reqs, 0);
}

#[test]
fn resolving_to_nothing_is_an_error() {
    let e = DnsClient::resolved("s3.example.com", vec![]).err().unwrap();
    assert_eq!(e.to_text(), "Could not resolve host `s3.example.com`");
    assert_eq!(e.kind, ErrorKind::Main);
    let ok = DnsClient::resolved("h", vec![IpAddress::V4([10, 0, 0, 1])]).ok().unwrap();
    assert_eq!(ok, vec![IpAddress::V4([10, 0, 0, 1])]);
}

fn config(name_servers: Option<Vec<NameServerInput>>, enable: Option<bool>) -> Config {
    Config {
        name_servers,
        enable_default_name_servers: enable,
        endpoint_url: "https://s3.amazonaws.com".to_string(),
        public_endpoint_url: None,
        region: None,
        access_key_id: "2241a7b748d".to_string(),
        secret_access_key: "84d789e9ebe".to_string(),
        force_path_style: None,
        public_force_path_style: None,
    }
}

#[test]
fn init_keeps_built_in_resolver_without_name_servers() {
    let plan = init_plan(config(None, None));
    assert!(matches!(plan.dns, DnsSetup::KeepDefault));
    assert!(plan.rejected_name_servers.is_empty());
    assert_eq!(plan.aws.endpoint_url, "https://s3.amazonaws.com");
    assert_eq!(plan.aws.access_key_id, "2241a7b748d");
}

#[test]
fn init_without_any_name_server() {
    let plan = init_plan(config(None, Some(false)));
    match plan.dns {
        DnsSetup::Install(c) => assert!(c.name_servers.is_empty()),
        DnsSetup::KeepDefault => panic!("expected a resolver without name-servers"),
    }
}

#[test]
fn init_skips_unparsable_name_servers() {
    let inputs = vec![
        NameServerInput::Parsed(v4(9, 9, 9, 9, 53)),
        NameServerInput::Unparsable("not-an-address".to_string()),
        NameServerInput::Parsed(v4(1, 0, 0, 1, 0)),
    ];
    let plan = init_plan(config(Some(inputs), None));
    assert_eq!(plan.rejected_name_servers, vec!["not-an-address".to_string()]);
    match plan.dns {
        DnsSetup::Install(c) => {
            assert_eq!(c.name_servers.len(), 4);
            assert_eq!(c.name_servers[0].ip, IpAddress::V4([9, 9, 9, 9]));
            assert_eq!(c.name_servers[1].ip, IpAddress::V4([1, 0, 0, 1]));
            assert_eq!(c.name_servers[1].port, None);
            assert_eq!(c.name_servers[3].ip, IpAddress::V4([127, 0, 0, 53]));
        },
        DnsSetup::KeepDefault => panic!("expected configured name-servers"),
    }
}

#[test]
fn init_with_defaults_disabled_asks_only_configured() {
    let plan = init_plan(config(Some(vec![NameServerInput::Parsed(v4(9, 9, 9, 9, 53))]), Some(false)));
    match plan.dns {
        DnsSetup::Install(c) => assert_eq!(c.name_servers.len(), 1),
        DnsSetup::KeepDefault => panic!("expected configured name-servers"),
    }
}

fn aws(public: Option<&str>, fps: Option<bool>, pfps: Option<bool>, region: Option<&str>) -> AwsClientConfig {
    AwsClientConfig {
        endpoint_url: "http://minio:9000".to_string(),
        public_endpoint_url: public.map(|s| s.to_string()),
        region: region.map(|s| s.to_string()),
        access_key_id: "id".to_string(),
        secret_access_key: "SECRET-REDACTED".to_string(),
        force_path_style: fps,
        public_force_path_style: pfps,
    }
}

#[test]
fn client_settings_defaults() {
    let s = aws(None, None, None, None).client_settings();
    assert_eq!(s.main.endpoint_url, "http://minio:9000");
    assert_eq!(s.main.region, "us-east-1");
    assert!(!s.main.force_path_style);
    assert_eq!(s.main.credentials_provider, "config");
    assert!(s.public.is_none());
    assert_eq!(s.public_client().endpoint_url, "http://minio:9000");
}

#[test]
fn public_client_inherits_path_style() {
    let s = aws(Some("https://files.example.com"), Some(true), None, Some("eu-west-1")).client_settings();
    assert!(s.main.force_path_style);
    let p = s.public_client();
    assert_eq!(p.endpoint_url, "https://files.example.com");
    assert!(p.force_path_style);
    assert_eq!(p.region, "eu-west-1");
    let s = aws(Some("https://files.example.com"), Some(true), Some(false), None).client_settings();
    assert!(!s.public_client().force_path_style);
}
