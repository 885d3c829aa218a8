use vstd::prelude::*;
use vstd::string::*;

use crate::text::opt_text;

verus! {

/// The S3 connection settings read from the module's configuration.
pub struct AwsClientConfig {
    pub endpoint_url: String,
    pub public_endpoint_url: Option<String>,
    pub region: Option<String>,
    pub access_key_id: String,
    pub secret_access_key: String,
    pub force_path_style: Option<bool>,
    pub public_force_path_style: Option<bool>,
}

pub struct AwsClientConfigView {
    pub endpoint_url: Seq<char>,
    pub public_endpoint_url: Option<Seq<char>>,
    pub region: Option<Seq<char>>,
    pub access_key_id: Seq<char>,
    pub secret_access_key: Seq<char>,
    pub force_path_style: Option<bool>,
    pub public_force_path_style: Option<bool>,
}

impl View for AwsClientConfig {
    type V = AwsClientConfigView;

    open spec fn view(&self) -> AwsClientConfigView {
        AwsClientConfigView {
            endpoint_url: self.endpoint_url@,
            public_endpoint_url: opt_text(self.public_endpoint_url),
            region: opt_text(self.region),
            access_key_id: self.access_key_id@,
            secret_access_key: self.secret_access_key@,
            force_path_style: self.force_path_style,
            public_force_path_style: self.public_force_path_style,
        }
    }
}

/// Everything one S3 client is built from.
pub struct ClientSettings {
    pub endpoint_url: String,
    pub region: String,
    pub access_key_id: String,
    pub secret_access_key: String,
    pub credentials_provider: String,
    pub force_path_style: bool,
}

pub struct ClientSettingsView {
    pub endpoint_url: Seq<char>,
    pub region: Seq<char>,
    pub access_key_id: Seq<char>,
    pub secret_access_key: Seq<char>,
    pub credentials_provider: Seq<char>,
    pub force_path_style: bool,
}

impl View for ClientSettings {
    type V = ClientSettingsView;

    open spec fn view(&self) -> ClientSettingsView {
        ClientSettingsView {
            endpoint_url: self.endpoint_url@,
            region: self.region@,
            access_key_id: self.access_key_id@,
            secret_access_key: self.secret_access_key@,
            credentials_provider: self.credentials_provider@,
            force_path_style: self.force_path_style,
        }
    }
}

/// The two clients of the module: the one that issues requests, and, when a
/// public endpoint is configured, the one that signs URIs against it.
pub struct AwsClientSettings {
    pub main: ClientSettings,
    pub public: Option<ClientSettings>,
}

/// The region requests are signed for when none is configured.
pub open spec fn default_region() -> Seq<char> {
    "us-east-1"@
}

/// The settings of a client for the given endpoint and path style: the
/// configured region (or the default one), the configured credentials, and path
/// style addressing only where it is asked for.
pub open spec fn settings_for(
    url: Seq<char>,
    force_path_style: Option<bool>,
    c: AwsClientConfigView,
) -> ClientSettingsView {
    ClientSettingsView {
        endpoint_url: url,
        region: match c.region {
            Some(r) => r,
            None => default_region(),
        },
        access_key_id: c.access_key_id,
        secret_access_key: c.secret_access_key,
        credentials_provider: "config"@,
        force_path_style: match force_path_style {
            Some(b) => b,
            None => false,
        },
    }
}

/// The path style of the public client: its own setting, else the main one.
pub open spec fn public_path_style(c: AwsClientConfigView) -> Option<bool> {
    match c.public_force_path_style {
        Some(b) => Some(b),
        None => c.force_path_style,
    }
}

fn build_settings(url: &String, force_path_style: Option<bool>, config: &AwsClientConfig) -> (r: ClientSettings)
    ensures
        r@ == settings_for(url@, force_path_style, config@),
{
    let region = match &config.region {
        Some(r) => r.clone(),
        None => String::from_str("us-east-1"),
    };
    let force = match force_path_style {
        Some(b) => b,
        None => false,
    };
    ClientSettings {
        endpoint_url: url.clone(),
        region,
        access_key_id: config.access_key_id.clone(),
        secret_access_key: config.secret_access_key.clone(),
        credentials_provider: String::from_str("config"),
        force_path_style: force,
    }
}

impl AwsClientConfig {
    /// The settings of both clients this configuration describes.
    pub fn client_settings(&self) -> (r: AwsClientSettings)
        ensures
            r.main@ == settings_for(self@.endpoint_url, self@.force_path_style, self@),
            r.main.access_key_id@ == self.access_key_id@,
            r.main.secret_access_key@ == self.secret_access_key@,
            r.public matches Some(p) ==> p.access_key_id@ == self.access_key_id@
                && p.secret_access_key@ == self.secret_access_key@,
            self@.public_endpoint_url is None ==> r.public is None,
            self@.public_endpoint_url matches Some(url) ==> (r.public matches Some(p)
                && p@ == settings_for(url, public_path_style(self@), self@)),
    {
        let main = build_settings(&self.endpoint_url, self.force_path_style, self);
        let public_style = match self.public_force_path_style {
            Some(b) => Some(b),
            None => self.force_path_style,
        };
        let public = match &self.public_endpoint_url {
            Some(url) => Some(build_settings(url, public_style, self)),
            None => None,
        };
        AwsClientSettings { main, public }
    }
}

impl AwsClientSettings {
    /// The client that signs URIs: the public one where there is one, else the
    /// main one.
    pub fn public_client(&self) -> (r: &ClientSettings)
        ensures
            self.public matches Some(p) ==> r@ == p@,
            self.public is None ==> r@ == self.main@,
    {
        match &self.public {
            Some(p) => p,
            None => &self.main,
        }
    }
}

} // verus!
