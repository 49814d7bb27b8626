use vstd::prelude::*;
use crate::text::{bool_string, bool_text, decimal, decimal_string, opt_text, push_decimal, same_text};

verus! {

/// Client settings: where the API is, how to log in, how to print, and how
/// to trust the server.
#[derive(Debug, Clone)]
pub struct Config {
    pub api: ApiConfig,
    pub auth: AuthConfig,
    pub output: OutputConfig,
    pub tls: TlsConfig,
}

/// Where the API listens and how long a call may take.
#[derive(Debug, Clone)]
pub struct ApiConfig {
    pub host: String,
    pub port: u16,
    pub protocol: String,
    /// Seconds allowed for each network call.
    pub timeout: u64,
    pub max_retries: u32,
}

/// Credentials and the current bearer token, if any.
#[derive(Debug, Clone)]
pub struct AuthConfig {
    pub username: Option<String>,
    pub password: Option<String>,
    pub token: Option<String>,
    pub token_expiry_hours: u32,
}

/// How results are shown.
#[derive(Debug, Clone)]
pub struct OutputConfig {
    pub format: String,
    pub color: bool,
    pub pager: bool,
}

/// TLS trust settings; the paths name PEM files.
#[derive(Debug, Clone)]
pub struct TlsConfig {
    pub verify: bool,
    pub ca_cert: Option<String>,
    pub client_cert: Option<String>,
    pub client_key: Option<String>,
}


fn default_host() -> (r: String)
    ensures
        r@ == "localhost"@,
{
    String::from_str("localhost")
}

fn default_port() -> (r: u16)
    ensures
        r == 55000,
{
    55000
}

fn default_protocol() -> (r: String)
    ensures
        r@ == "https"@,
{
    String::from_str("https")
}

fn default_timeout() -> (r: u64)
    ensures
        r == 30,
{
    30
}

fn default_retries() -> (r: u32)
    ensures
        r == 3,
{
    3
}

fn default_token_expiry() -> (r: u32)
    ensures
        r == 24,
{
    24
}

fn default_format() -> (r: String)
    ensures
        r@ == "table"@,
{
    String::from_str("table")
}

fn default_color() -> (r: bool)
    ensures
        r,
{
    true
}

fn default_pager() -> (r: bool)
    ensures
        r,
{
    true
}

fn default_verify() -> (r: bool)
    ensures
        r,
{
    true
}

impl Default for ApiConfig {
    fn default() -> (r: Self)
        ensures
            r.host@ == "localhost"@,
            r.port == 55000,
            r.protocol@ == "https"@,
            r.timeout == 30,
            r.max_retries == 3,
    {
        ApiConfig {
            host: default_host(),
            port: default_port(),
            protocol: default_protocol(),
            timeout: default_timeout(),
            max_retries: default_retries(),
        }
    }
}

impl Default for AuthConfig {
    fn default() -> (r: Self)
        ensures
            r.username is None,
            r.password is None,
            r.token is None,
            r.token_expiry_hours == 24,
    {
        AuthConfig {
            username: None,
            password: None,
            token: None,
            token_expiry_hours: default_token_expiry(),
        }
    }
}

impl Default for OutputConfig {
    fn default() -> (r: Self)
        ensures
            r.format@ == "table"@,
            r.color,
            r.pager,
    {
        OutputConfig { format: default_format(), color: default_color(), pager: default_pager() }
    }
}

impl Default for TlsConfig {
    fn default() -> (r: Self)
        ensures
            r.verify,
            r.ca_cert is None,
            r.client_cert is None,
            r.client_key is None,
    {
        TlsConfig { verify: default_verify(), ca_cert: None, client_cert: None, client_key: None }
    }
}

impl Default for Config {
    fn default() -> (r: Self)
        ensures
            r.api.host@ == "localhost"@,
            r.api.port == 55000,
            r.api.protocol@ == "https"@,
            r.api.timeout == 30,
            r.api.max_retries == 3,
            r.auth.username is None,
            r.auth.password is None,
            r.auth.token is None,
            r.auth.token_expiry_hours == 24,
            r.output.format@ == "table"@,
            r.output.color,
            r.output.pager,
            r.tls.verify,
            r.tls.ca_cert is None,
            r.tls.client_cert is None,
            r.tls.client_key is None,
    {
        Config {
            api: ApiConfig::default(),
            auth: AuthConfig::default(),
            output: OutputConfig::default(),
            tls: TlsConfig::default(),
        }
    }
}

/// The base URL of the API: `protocol://host:port`.
pub open spec fn api_url_of(c: Config) -> Seq<char> {
    c.api.protocol@ + "://"@ + c.api.host@ + ":"@ + decimal(c.api.port as nat)
}

/// The text that `key` reads in the configuration, for the keys that can be
/// read; `None` for an unknown key or an unset username.
pub open spec fn setting_of(c: Config, key: Seq<char>) -> Option<Seq<char>> {
    if key == "api.host"@ {
        Some(c.api.host@)
    } else if key == "api.port"@ {
        Some(decimal(c.api.port as nat))
    } else if key == "api.protocol"@ {
        Some(c.api.protocol@)
    } else if key == "api.timeout"@ {
        Some(decimal(c.api.timeout as nat))
    } else if key == "api.max_retries"@ {
        Some(decimal(c.api.max_retries as nat))
    } else if key == "auth.username"@ {
        opt_text(c.auth.username)
    } else if key == "auth.token_expiry_hours"@ {
        Some(decimal(c.auth.token_expiry_hours as nat))
    } else if key == "output.format"@ {
        Some(c.output.format@)
    } else if key == "output.color"@ {
        Some(bool_text(c.output.color))
    } else if key == "output.pager"@ {
        Some(bool_text(c.output.pager))
    } else if key == "tls.verify"@ {
        Some(bool_text(c.tls.verify))
    } else {
        None
    }
}

impl Config {
    /// The base URL of the API.
    pub fn api_url(&self) -> (r: String)
        ensures
            r@ == api_url_of(*self),
    {
        let mut s = self.api.protocol.clone();
        s.append("://");
        s.append(self.api.host.as_str());
        s.append(":");
        push_decimal(&mut s, self.api.port as u64);
        s
    }

    /// Makes `token` the current token; nothing else changes.
    pub fn update_token(&mut self, token: String)
        ensures
            final(self).auth.token == Some(token),
            final(self).auth.username == old(self).auth.username,
            final(self).auth.password == old(self).auth.password,
            final(self).auth.token_expiry_hours == old(self).auth.token_expiry_hours,
            final(self).api == old(self).api,
            final(self).output == old(self).output,
            final(self).tls == old(self).tls,
    {
        self.auth.token = Some(token);
    }

    /// Forgets the current token; nothing else changes.
    pub fn clear_token(&mut self)
        ensures
            final(self).auth.token is None,
            final(self).auth.username == old(self).auth.username,
            final(self).auth.password == old(self).auth.password,
            final(self).auth.token_expiry_hours == old(self).auth.token_expiry_hours,
            final(self).api == old(self).api,
            final(self).output == old(self).output,
            final(self).tls == old(self).tls,
    {
        self.auth.token = None;
    }

    /// Whether a token is stored.
    pub fn is_authenticated(&self) -> (r: bool)
        ensures
            r == self.auth.token is Some,
    {
        self.auth.token.is_some()
    }

    /// The text of the setting `key` (such as `api.port`), or `None` for an
    /// unknown key or an unset username.
    pub fn setting(&self, key: &str) -> (r: Option<String>)
        ensures
            opt_text(r) == setting_of(*self, key@),
    {
        if same_text(key, "api.host") {
            Some(self.api.host.clone())
        } else if same_text(key, "api.port") {
            Some(decimal_string(self.api.port as u64))
        } else if same_text(key, "api.protocol") {
            Some(self.api.protocol.clone())
        } else if same_text(key, "api.timeout") {
            Some(decimal_string(self.api.timeout))
        } else if same_text(key, "api.max_retries") {
            Some(decimal_string(self.api.max_retries as u64))
        } else if same_text(key, "auth.username") {
            self.auth.username.clone()
        } else if same_text(key, "auth.token_expiry_hours") {
            Some(decimal_string(self.auth.token_expiry_hours as u64))
        } else if same_text(key, "output.format") {
            Some(self.output.format.clone())
        } else if same_text(key, "output.color") {
            Some(bool_string(self.output.color))
        } else if same_text(key, "output.pager") {
            Some(bool_string(self.output.pager))
        } else if same_text(key, "tls.verify") {
            Some(bool_string(self.tls.verify))
        } else {
            None
        }
    }
}

} // verus!
