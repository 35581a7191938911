//! Configuration model: the provider entries, detection endpoints and
//! history settings one run of the client works from.
//!
//! The configuration is parsed once at process start and read-only
//! afterwards; this module holds the model and its derived names, not the
//! persistence.

use vstd::prelude::*;

verus! {

/// Main configuration.
#[derive(Clone, Debug)]
pub struct Config {
    /// Check interval in seconds.
    pub check_interval_secs: u64,
    /// IP detection endpoints, tried in order.
    pub ip_services: Vec<String>,
    /// Configured providers, processed in order.
    pub providers: Vec<ProviderConfig>,
    /// History settings.
    pub history: HistoryConfig,
}

/// One configured provider entry, with the vendor-specific identity and
/// credential fields needed to construct it. A credential field may be a
/// literal secret or, when it begins with `$`, the name of an environment
/// variable holding the secret.
#[derive(Clone, Debug)]
pub enum ProviderConfig {
    Cloudflare {
        /// API token, or environment reference.
        api_token: String,
        /// Zone identifier.
        zone_id: String,
        /// Fully qualified record name.
        record_name: String,
        /// Whether the record is proxied.
        proxied: bool,
    },
    Namecheap {
        /// Registered domain.
        domain: String,
        /// Subdomain, `@` for the bare domain.
        host: String,
        /// Dynamic-DNS password, or environment reference.
        password: String,
    },
    DuckDns {
        /// Subdomain, or several joined by commas.
        domains: String,
        /// Account token, or environment reference.
        token: String,
    },
    GoDaddy {
        /// API key, or environment reference.
        api_key: String,
        /// API secret, or environment reference.
        api_secret: String,
        /// Registered domain.
        domain: String,
        /// Subdomain, `@` for the bare domain.
        name: String,
        /// Record time-to-live in seconds.
        ttl: u32,
    },
}

/// History settings.
#[derive(Clone, Debug)]
pub struct HistoryConfig {
    /// Whether update history is kept.
    pub enabled: bool,
    /// Most entries kept at once.
    pub max_entries: usize,
}

/// The default check interval, in seconds.
pub fn default_interval() -> (r: u64)
    ensures
        r == 300,
{
    300
}

/// The views of the default IP detection endpoints.
pub open spec fn default_services_spec() -> Seq<Seq<char>> {
    seq![
        "https://api.ipify.org"@,
        "https://icanhazip.com"@,
        "https://ifconfig.me/ip"@,
        "https://ipecho.net/plain"@,
    ]
}

/// The default IP detection endpoints.
pub fn default_ip_services() -> (r: Vec<String>)
    ensures
        r.deep_view() =~= default_services_spec(),
{
    let mut v: Vec<String> = Vec::new();
    v.push(String::from_str("https://api.ipify.org"));
    v.push(String::from_str("https://icanhazip.com"));
    v.push(String::from_str("https://ifconfig.me/ip"));
    v.push(String::from_str("https://ipecho.net/plain"));
    proof {
        assert(v.deep_view() =~= default_services_spec());
    }
    v
}

/// The default record time-to-live, in seconds.
pub fn default_ttl() -> (r: u32)
    ensures
        r == 600,
{
    600
}

/// The default of a flag that is on unless configured off.
pub fn default_true() -> (r: bool)
    ensures
        r,
{
    true
}

/// The default bound on kept history entries.
pub fn default_max_entries() -> (r: usize)
    ensures
        r == 100,
{
    100
}

impl Default for HistoryConfig {
    /// History is kept by default, bounded at one hundred entries.
    fn default() -> (r: Self)
        ensures
            r.enabled,
            r.max_entries == 100,
    {
        HistoryConfig { enabled: true, max_entries: 100 }
    }
}

impl Default for Config {
    /// Five-minute interval, the default endpoints, no providers.
    fn default() -> (r: Self)
        ensures
            r.check_interval_secs == 300,
            r.ip_services.deep_view() =~= default_services_spec(),
            r.providers@.len() == 0,
            r.history.enabled,
            r.history.max_entries == 100,
    {
        Config {
            check_interval_secs: 300,
            ip_services: default_ip_services(),
            providers: Vec::new(),
            history: HistoryConfig { enabled: true, max_entries: 100 },
        }
    }
}

impl Config {
    /// An example configuration: one Cloudflare entry and one DuckDNS
    /// entry, both with environment-reference credentials.
    pub fn example() -> (r: Self)
        ensures
            r.check_interval_secs == 300,
            r.ip_services.deep_view() =~= default_services_spec(),
            r.providers@.len() == 2,
            r.providers@[0] matches ProviderConfig::Cloudflare {
                api_token,
                zone_id,
                record_name,
                proxied,
            } && api_token@ == "$CF_API_TOKEN"@ && zone_id@ == "your-zone-id"@ && record_name@
                == "vpn.example.com"@ && !proxied,
            r.providers@[1] matches ProviderConfig::DuckDns { domains, token } && domains@
                == "mysubdomain"@ && token@ == "$DUCKDNS_TOKEN"@,
            r.history.enabled,
            r.history.max_entries == 100,
    {
        let mut providers: Vec<ProviderConfig> = Vec::new();
        providers.push(
            ProviderConfig::Cloudflare {
                api_token: String::from_str("$CF_API_TOKEN"),
                zone_id: String::from_str("your-zone-id"),
                record_name: String::from_str("vpn.example.com"),
                proxied: false,
            },
        );
        providers.push(
            ProviderConfig::DuckDns {
                domains: String::from_str("mysubdomain"),
                token: String::from_str("$DUCKDNS_TOKEN"),
            },
        );
        Config {
            check_interval_secs: 300,
            ip_services: default_ip_services(),
            providers,
            history: HistoryConfig { enabled: true, max_entries: 100 },
        }
    }
}

impl ProviderConfig {
    /// The vendor identifier of the entry.
    pub open spec fn spec_name(self) -> Seq<char> {
        match self {
            ProviderConfig::Cloudflare { .. } => "cloudflare"@,
            ProviderConfig::Namecheap { .. } => "namecheap"@,
            ProviderConfig::DuckDns { .. } => "duckdns"@,
            ProviderConfig::GoDaddy { .. } => "godaddy"@,
        }
    }

    /// The vendor identifier of the entry.
    pub fn name(&self) -> (r: &'static str)
        ensures
            r@ == self.spec_name(),
    {
        match self {
            ProviderConfig::Cloudflare { .. } => "cloudflare",
            ProviderConfig::Namecheap { .. } => "namecheap",
            ProviderConfig::DuckDns { .. } => "duckdns",
            ProviderConfig::GoDaddy { .. } => "godaddy",
        }
    }

    /// The domain the entry displays: the record name for Cloudflare, the
    /// first comma-separated entry of the configured domains under the
    /// fixed suffix for DuckDNS, and the host-dot-domain form (bare domain
    /// for the `@` root marker) for the others.
    pub open spec fn spec_display_name(self) -> Seq<char> {
        match self {
            ProviderConfig::Cloudflare { record_name, .. } => record_name@,
            ProviderConfig::Namecheap { domain, host, .. } => if host@ == "@"@ {
                domain@
            } else {
                host@ + "."@ + domain@
            },
            ProviderConfig::DuckDns { domains, .. } => crate::text::seg_before(domains@, ',')
                + ".duckdns.org"@,
            ProviderConfig::GoDaddy { domain, name, .. } => if name@ == "@"@ {
                domain@
            } else {
                name@ + "."@ + domain@
            },
        }
    }

    /// The domain the entry displays.
    pub fn display_name(&self) -> (r: String)
        ensures
            r@ == self.spec_display_name(),
    {
        match self {
            ProviderConfig::Cloudflare { record_name, .. } => record_name.clone(),
            ProviderConfig::Namecheap { domain, host, .. } => {
                if crate::text::str_eq(host.as_str(), "@") {
                    domain.clone()
                } else {
                    let mut s = host.clone();
                    s.append(".");
                    s.append(domain.as_str());
                    s
                }
            },
            ProviderConfig::DuckDns { domains, .. } => {
                let first = crate::text::prefix_before_char(domains.as_str(), ',');
                let mut s = String::from_str(first);
                s.append(".duckdns.org");
                s
            },
            ProviderConfig::GoDaddy { domain, name, .. } => {
                if crate::text::str_eq(name.as_str(), "@") {
                    domain.clone()
                } else {
                    let mut s = name.clone();
                    s.append(".");
                    s.append(domain.as_str());
                    s
                }
            },
        }
    }
}

} // verus!
