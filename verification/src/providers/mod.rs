//! The uniform provider layer: the outcome record every provider
//! operation produces, credential resolution against an environment
//! snapshot, and the construction of one provider per configured entry.

use vstd::prelude::*;

use crate::ip::IpAddress;
use crate::config::ProviderConfig;

pub mod cloudflare;
pub mod duckdns;
pub mod godaddy;
pub mod namecheap;

pub use cloudflare::CloudflareProvider;
pub use duckdns::DuckDnsProvider;
pub use godaddy::GoDaddyProvider;
pub use namecheap::NamecheapProvider;

verus! {

/// The outcome of one update operation against one provider.
///
/// A successful outcome always carries the address that was written and
/// never an error; a failed outcome never carries an address. The
/// previous address is best-effort and independent of success.
#[derive(Debug)]
pub struct UpdateResult {
    /// Vendor identifier of the provider.
    pub provider: String,
    /// The record the provider manages.
    pub domain: String,
    /// Whether the vendor accepted the update.
    pub success: bool,
    /// The address written, present exactly on success.
    pub ip: Option<IpAddress>,
    /// The address the record held before the update, when readable.
    pub previous_ip: Option<IpAddress>,
    /// The vendor's message, present exactly on failure.
    pub error: Option<String>,
    /// When the outcome was produced, as Unix seconds.
    pub timestamp: i64,
}

impl UpdateResult {
    /// The invariant every outcome the library produces satisfies.
    pub open spec fn wf(self) -> bool {
        &&& self.success ==> self.ip is Some && self.error is None
        &&& !self.success ==> self.ip is None && self.error is Some
    }

    /// A successful outcome.
    pub fn made(
        provider: String,
        domain: String,
        ip: IpAddress,
        previous_ip: Option<IpAddress>,
        timestamp: i64,
    ) -> (r: UpdateResult)
        ensures
            r.wf(),
            r.provider == provider,
            r.domain == domain,
            r.success,
            r.ip == Some(ip),
            r.previous_ip == previous_ip,
            r.error is None,
            r.timestamp == timestamp,
    {
        UpdateResult {
            provider,
            domain,
            success: true,
            ip: Some(ip),
            previous_ip,
            error: None,
            timestamp,
        }
    }

    /// A soft failure: the vendor answered and rejected the update.
    pub fn refused(
        provider: String,
        domain: String,
        error: String,
        previous_ip: Option<IpAddress>,
        timestamp: i64,
    ) -> (r: UpdateResult)
        ensures
            r.wf(),
            r.provider == provider,
            r.domain == domain,
            !r.success,
            r.ip is None,
            r.previous_ip == previous_ip,
            r.error == Some(error),
            r.timestamp == timestamp,
    {
        UpdateResult {
            provider,
            domain,
            success: false,
            ip: None,
            previous_ip,
            error: Some(error),
            timestamp,
        }
    }
}

impl Clone for UpdateResult {
    fn clone(&self) -> (res: Self)
        ensures
            res == *self,
    {
        let res = UpdateResult {
            provider: self.provider.clone(),
            domain: self.domain.clone(),
            success: self.success,
            ip: self.ip,
            previous_ip: self.previous_ip,
            error: match &self.error {
                Some(e) => Some(e.clone()),
                None => None,
            },
            timestamp: self.timestamp,
        };
        res
    }
}

/// A well-formed outcome never reports success without an address, nor
/// success together with an error, nor failure with an address, nor
/// failure without an error.
pub proof fn lemma_update_result_invariant(r: UpdateResult)
    requires
        r.wf(),
    ensures
        r.success ==> r.ip is Some,
        r.success ==> r.error is None,
        !r.success ==> r.ip is None,
        !r.success ==> r.error is Some,
{
}

/// Relies on `chrono::Utc::now` for the current wall-clock time, reduced
/// to Unix seconds. Nothing is assumed of the value.
#[verifier::external_body]
pub(crate) fn now_unix() -> i64 {
    chrono::Utc::now().timestamp()
}

/// The DNS record type written for an address: `A` for IPv4, `AAAA`
/// otherwise.
pub fn record_type_for(ip: &IpAddress) -> (r: &'static str)
    ensures
        ip.spec_is_ipv4() ==> r@ == "A"@,
        !ip.spec_is_ipv4() ==> r@ == "AAAA"@,
{
    if ip.is_ipv4() {
        "A"
    } else {
        "AAAA"
    }
}

/// The value bound to `name` in an environment snapshot, first binding
/// wins.
pub open spec fn env_lookup(env: Seq<(String, String)>, name: Seq<char>) -> Option<Seq<char>>
    decreases env.len(),
{
    if env.len() == 0 {
        None
    } else if env[0].0@ == name {
        Some(env[0].1@)
    } else {
        env_lookup(env.drop_first(), name)
    }
}

/// Look `name` up in an environment snapshot.
pub fn lookup_env(env: &Vec<(String, String)>, name: &str) -> (r: Option<String>)
    ensures
        match r {
            Some(v) => env_lookup(env@, name@) == Some(v@),
            None => env_lookup(env@, name@) is None,
        },
{
    let mut i: usize = 0;
    let len = env.len();
    proof {
        assert(env@.skip(0) =~= env@);
    }
    while i < len
        invariant
            len == env@.len(),
            i <= len,
            env_lookup(env@, name@) == env_lookup(env@.skip(i as int), name@),
        decreases len - i,
    {
        proof {
            assert(env@.skip(i as int)[0] == env@[i as int]);
            assert(env@.skip(i as int).drop_first() =~= env@.skip(i + 1));
        }
        if crate::text::str_eq(env[i].0.as_str(), name) {
            let v = env[i].1.clone();
            return Some(v);
        }
        i = i + 1;
    }
    proof {
        assert(env@.skip(len as int).len() == 0);
    }
    None
}

/// What a configured credential field resolves to: a value beginning with
/// the `$` sigil names an environment variable; if that variable is bound
/// its value is taken, otherwise the field is kept unchanged, sigil
/// included. Any other value is a literal secret.
pub open spec fn spec_resolve_env(value: Seq<char>, env: Seq<(String, String)>) -> Seq<char> {
    if value.len() > 0 && value[0] == '$' {
        match env_lookup(env, value.skip(1)) {
            Some(v) => v,
            None => value,
        }
    } else {
        value
    }
}

/// Resolve a credential field against an environment snapshot. This
/// operation never fails: an unresolvable reference is returned as it
/// stands.
pub fn resolve_env(value: &str, env: &Vec<(String, String)>) -> (r: String)
    ensures
        r@ == spec_resolve_env(value@, env@),
{
    if crate::text::starts_with_char(value, '$') {
        let len = value.unicode_len();
        let name = value.substring_char(1, len);
        proof {
            assert(name@ =~= value@.skip(1));
        }
        match lookup_env(env, name) {
            Some(v) => v,
            None => String::from_str(value),
        }
    } else {
        String::from_str(value)
    }
}

/// One constructed provider, selected by the configuration variant.
#[derive(Clone, Debug)]
pub enum Provider {
    Cloudflare(CloudflareProvider),
    DuckDns(DuckDnsProvider),
    GoDaddy(GoDaddyProvider),
    Namecheap(NamecheapProvider),
}

impl Provider {
    /// The vendor identifier of the provider.
    pub open spec fn spec_name(self) -> Seq<char> {
        match self {
            Provider::Cloudflare(_) => "cloudflare"@,
            Provider::DuckDns(_) => "duckdns"@,
            Provider::GoDaddy(_) => "godaddy"@,
            Provider::Namecheap(_) => "namecheap"@,
        }
    }

    /// The vendor identifier of the provider.
    pub fn name(&self) -> (r: &'static str)
        ensures
            r@ == self.spec_name(),
    {
        match self {
            Provider::Cloudflare(p) => p.name(),
            Provider::DuckDns(p) => p.name(),
            Provider::GoDaddy(p) => p.name(),
            Provider::Namecheap(p) => p.name(),
        }
    }

    /// The record the provider manages.
    pub open spec fn spec_domain(self) -> Seq<char> {
        match self {
            Provider::Cloudflare(p) => p.spec_domain(),
            Provider::DuckDns(p) => p.spec_domain(),
            Provider::GoDaddy(p) => p.spec_domain(),
            Provider::Namecheap(p) => p.spec_domain(),
        }
    }

    /// The record the provider manages.
    pub fn domain(&self) -> (r: String)
        ensures
            r@ == self.spec_domain(),
    {
        match self {
            Provider::Cloudflare(p) => p.domain(),
            Provider::DuckDns(p) => p.domain(),
            Provider::GoDaddy(p) => p.domain(),
            Provider::Namecheap(p) => p.domain(),
        }
    }

    /// Whether the vendor can report a record's current value at all.
    /// DuckDNS and Namecheap cannot; for them an update cycle always
    /// proceeds to the update call.
    pub fn supports_read(&self) -> (r: bool)
        ensures
            r == (self is Cloudflare || self is GoDaddy),
    {
        match self {
            Provider::Cloudflare(_) => true,
            Provider::GoDaddy(_) => true,
            Provider::DuckDns(_) => false,
            Provider::Namecheap(_) => false,
        }
    }
}

/// The domain rule shared by the providers that configure a host or name
/// beside a base domain: the root marker `@` yields the bare base domain,
/// any other value yields host-dot-domain. Cloudflare displays its
/// configured record name as it stands, and DuckDNS the first of its
/// configured subdomains under the fixed vendor suffix.
pub proof fn lemma_domain_of_provider(p: Provider)
    ensures
        p matches Provider::Namecheap(n) ==> p.spec_domain() == if n.host@ == "@"@ {
            n.domain@
        } else {
            n.host@ + "."@ + n.domain@
        },
        p matches Provider::GoDaddy(g) ==> p.spec_domain() == if g.name@ == "@"@ {
            g.domain@
        } else {
            g.name@ + "."@ + g.domain@
        },
        p matches Provider::Cloudflare(c) ==> p.spec_domain() == c.record_name@,
        p matches Provider::DuckDns(d) ==> p.spec_domain() == crate::text::seg_before(
            d.domains@,
            ',',
        ) + ".duckdns.org"@,
{
}

/// Construct the provider a configuration entry names, resolving every
/// credential field against the environment snapshot. Construction cannot
/// fail; bad credentials surface on the first call against the vendor.
pub fn create_provider(config: &ProviderConfig, env: &Vec<(String, String)>) -> (r: Provider)
    ensures
        config matches ProviderConfig::Cloudflare { api_token, zone_id, record_name, proxied } ==> (
        r matches Provider::Cloudflare(p) && p.api_token@ == spec_resolve_env(api_token@, env@)
            && p.zone_id == zone_id && p.record_name == record_name && p.proxied == proxied
            && p.base_url@ == "https://api.cloudflare.com"@),
        config matches ProviderConfig::Namecheap { domain, host, password } ==> (r matches
            Provider::Namecheap(p) && p.domain == domain && p.host == host && p.password@
            == spec_resolve_env(password@, env@) && p.base_url@
            == "https://dynamicdns.park-your-domain.com"@),
        config matches ProviderConfig::DuckDns { domains, token } ==> (r matches Provider::DuckDns(
            p,
        ) && p.domains == domains && p.token@ == spec_resolve_env(token@, env@) && p.base_url@
            == "https://www.duckdns.org"@),
        config matches ProviderConfig::GoDaddy { api_key, api_secret, domain, name, ttl } ==> (
        r matches Provider::GoDaddy(p) && p.api_key@ == spec_resolve_env(api_key@, env@)
            && p.api_secret@ == spec_resolve_env(api_secret@, env@) && p.domain == domain && p.name
            == name && p.ttl == ttl && p.base_url@ == "https://api.godaddy.com"@),
{
    match config {
        ProviderConfig::Cloudflare { api_token, zone_id, record_name, proxied } => {
            Provider::Cloudflare(
                CloudflareProvider::new(
                    resolve_env(api_token.as_str(), env),
                    zone_id.clone(),
                    record_name.clone(),
                    *proxied,
                ),
            )
        },
        ProviderConfig::Namecheap { domain, host, password } => {
            Provider::Namecheap(
                NamecheapProvider::new(
                    domain.clone(),
                    host.clone(),
                    resolve_env(password.as_str(), env),
                ),
            )
        },
        ProviderConfig::DuckDns { domains, token } => {
            Provider::DuckDns(
                DuckDnsProvider::new(domains.clone(), resolve_env(token.as_str(), env)),
            )
        },
        ProviderConfig::GoDaddy { api_key, api_secret, domain, name, ttl } => {
            Provider::GoDaddy(
                GoDaddyProvider::new(
                    resolve_env(api_key.as_str(), env),
                    resolve_env(api_secret.as_str(), env),
                    domain.clone(),
                    name.clone(),
                    *ttl,
                ),
            )
        },
    }
}

} // verus!
