//! DuckDNS provider.
//!
//! DuckDNS is driven by a single GET with the subdomains, the token and
//! the address as query parameters. The vendor cannot report a record's
//! current value, and signals success with a body that is exactly the
//! text `OK`.

use vstd::prelude::*;

use crate::ip::IpAddress;
use crate::error::DdnsError;
use crate::text::{seg_before, trim_spec, trim_str, str_eq, prefix_before_char};
use super::{UpdateResult, now_unix};

verus! {

/// DuckDNS provider instance: one resolved token and the configured
/// subdomains.
#[derive(Clone, Debug)]
pub struct DuckDnsProvider {
    /// Subdomain, or several joined by commas.
    pub domains: String,
    /// Resolved account token.
    pub token: String,
    /// Base URL of the vendor API.
    pub base_url: String,
}

impl DuckDnsProvider {
    /// Create a provider against the vendor's own endpoint.
    pub fn new(domains: String, token: String) -> (r: Self)
        ensures
            r.domains == domains,
            r.token == token,
            r.base_url@ == "https://www.duckdns.org"@,
    {
        Self::with_base_url(domains, token, String::from_str("https://www.duckdns.org"))
    }

    /// Create a provider against a chosen base URL.
    pub fn with_base_url(domains: String, token: String, base_url: String) -> (r: Self)
        ensures
            r.domains == domains,
            r.token == token,
            r.base_url == base_url,
    {
        DuckDnsProvider { domains, token, base_url }
    }

    /// The vendor identifier.
    pub fn name(&self) -> (r: &'static str)
        ensures
            r@ == "duckdns"@,
    {
        "duckdns"
    }

    /// The domain this instance manages: the first comma-separated entry
    /// of the configured subdomains, under the fixed DuckDNS suffix.
    pub open spec fn spec_domain(self) -> Seq<char> {
        seg_before(self.domains@, ',') + ".duckdns.org"@
    }

    /// The domain this instance manages.
    pub fn domain(&self) -> (r: String)
        ensures
            r@ == self.spec_domain(),
    {
        let first = prefix_before_char(self.domains.as_str(), ',');
        let mut s = String::from_str(first);
        s.append(".duckdns.org");
        s
    }

    /// The update request URL for `ip`.
    pub fn update_url(&self, ip: &IpAddress) -> (r: String)
        ensures
            r@ == self.base_url@ + "/update?domains="@ + self.domains@ + "&token="@ + self.token@
                + "&ip="@ + ip.ip_chars(),
    {
        let mut s = self.base_url.clone();
        s.append("/update?domains=");
        s.append(self.domains.as_str());
        s.append("&token=");
        s.append(self.token.as_str());
        s.append("&ip=");
        let t = ip.to_text();
        s.append(t.as_str());
        s
    }

    /// The outcome for `ip` given the response body of the update call:
    /// success exactly when the trimmed body is the text `OK`; otherwise a
    /// soft failure whose error carries the trimmed body.
    pub fn interpret_update(&self, ip: &IpAddress, body: &str) -> (r: UpdateResult)
        ensures
            r.wf(),
            r.provider@ == "duckdns"@,
            r.domain@ == self.spec_domain(),
            r.success == (trim_spec(body@) == "OK"@),
            r.success ==> r.ip == Some(*ip),
            !r.success ==> (r.error matches Some(e) && e@ == "DuckDNS returned: "@ + trim_spec(
                body@,
            )),
            r.previous_ip is None,
    {
        let trimmed = trim_str(body);
        let timestamp = now_unix();
        if str_eq(trimmed, "OK") {
            UpdateResult::made(String::from_str("duckdns"), self.domain(), *ip, None, timestamp)
        } else {
            let mut e = String::from_str("DuckDNS returned: ");
            e.append(trimmed);
            UpdateResult::refused(String::from_str("duckdns"), self.domain(), e, None, timestamp)
        }
    }

    /// Check the configuration locally: the token and the subdomains must
    /// both be present. DuckDNS offers no validation endpoint.
    pub fn validate(&self) -> (r: Result<(), DdnsError>)
        ensures
            r is Ok <==> self.token@.len() > 0 && self.domains@.len() > 0,
            self.token@.len() == 0 ==> (r matches Err(e) && e matches DdnsError::Provider {
                provider,
                message,
            } && provider@ == "duckdns"@ && message@ == "Token is empty"@),
            self.token@.len() > 0 && self.domains@.len() == 0 ==> (r matches Err(e) && e matches
                DdnsError::Provider { provider, message } && provider@ == "duckdns"@ && message@
                == "Domains is empty"@),
    {
        if self.token.as_str().is_empty() {
            return Err(
                DdnsError::Provider {
                    provider: String::from_str("duckdns"),
                    message: String::from_str("Token is empty"),
                },
            );
        }
        if self.domains.as_str().is_empty() {
            return Err(
                DdnsError::Provider {
                    provider: String::from_str("duckdns"),
                    message: String::from_str("Domains is empty"),
                },
            );
        }
        Ok(())
    }
}

} // verus!
