//! Cloudflare provider.
//!
//! Cloudflare authenticates with a bearer token and wraps every answer in
//! an envelope carrying a success flag, a result and a list of error
//! messages. An update first looks the record up by name — a missing
//! record is a hard error, not a soft failure — and then patches it by
//! identifier.

use vstd::prelude::*;

use crate::ip::IpAddress;
use crate::error::DdnsError;
use super::{UpdateResult, now_unix, record_type_for};

verus! {

/// Cloudflare provider instance: resolved token and the record identity.
#[derive(Clone, Debug)]
pub struct CloudflareProvider {
    /// Resolved API token.
    pub api_token: String,
    /// Zone identifier.
    pub zone_id: String,
    /// Fully qualified record name.
    pub record_name: String,
    /// Whether the record is proxied.
    pub proxied: bool,
    /// Base URL of the vendor API.
    pub base_url: String,
}

/// The fields of one DNS record the logic reads from a lookup answer.
#[derive(Clone, Debug)]
pub struct DnsRecordInfo {
    /// Record identifier.
    pub id: String,
    /// Record value.
    pub content: String,
}

/// The fields of the partial-update request the logic writes.
#[derive(Clone, Debug)]
pub struct CfUpdateRequest {
    /// Record type, by the address family.
    pub record_type: String,
    /// Fully qualified record name.
    pub name: String,
    /// Record value.
    pub content: String,
    /// Whether the record is proxied.
    pub proxied: bool,
}

impl CloudflareProvider {
    /// Create a provider against the vendor's own endpoint.
    pub fn new(api_token: String, zone_id: String, record_name: String, proxied: bool) -> (r: Self)
        ensures
            r.api_token == api_token,
            r.zone_id == zone_id,
            r.record_name == record_name,
            r.proxied == proxied,
            r.base_url@ == "https://api.cloudflare.com"@,
    {
        Self::with_base_url(
            api_token,
            zone_id,
            record_name,
            proxied,
            String::from_str("https://api.cloudflare.com"),
        )
    }

    /// Create a provider against a chosen base URL.
    pub fn with_base_url(
        api_token: String,
        zone_id: String,
        record_name: String,
        proxied: bool,
        base_url: String,
    ) -> (r: Self)
        ensures
            r.api_token == api_token,
            r.zone_id == zone_id,
            r.record_name == record_name,
            r.proxied == proxied,
            r.base_url == base_url,
    {
        CloudflareProvider { api_token, zone_id, record_name, proxied, base_url }
    }

    /// The vendor identifier.
    pub fn name(&self) -> (r: &'static str)
        ensures
            r@ == "cloudflare"@,
    {
        "cloudflare"
    }

    /// The record this instance manages.
    pub open spec fn spec_domain(self) -> Seq<char> {
        self.record_name@
    }

    /// The record this instance manages: the configured record name.
    pub fn domain(&self) -> (r: String)
        ensures
            r@ == self.spec_domain(),
    {
        self.record_name.clone()
    }

    /// The `Authorization` header value: `Bearer {token}`.
    pub fn auth_header(&self) -> (r: String)
        ensures
            r@ == "Bearer "@ + self.api_token@,
    {
        let mut s = String::from_str("Bearer ");
        s.append(self.api_token.as_str());
        s
    }

    /// The lookup URL: the zone's records filtered by the record name.
    pub fn records_url(&self) -> (r: String)
        ensures
            r@ == self.base_url@ + "/client/v4/zones/"@ + self.zone_id@ + "/dns_records?name="@
                + self.record_name@,
    {
        let mut s = self.base_url.clone();
        s.append("/client/v4/zones/");
        s.append(self.zone_id.as_str());
        s.append("/dns_records?name=");
        s.append(self.record_name.as_str());
        s
    }

    /// The update URL of one record by identifier.
    pub fn record_url(&self, record_id: &str) -> (r: String)
        ensures
            r@ == self.base_url@ + "/client/v4/zones/"@ + self.zone_id@ + "/dns_records/"@
                + record_id@,
    {
        let mut s = self.base_url.clone();
        s.append("/client/v4/zones/");
        s.append(self.zone_id.as_str());
        s.append("/dns_records/");
        s.append(record_id);
        s
    }

    /// The message a failed envelope carries: its first error, or a fixed
    /// text when the list is empty.
    pub open spec fn spec_first_error(errors: Seq<String>) -> Seq<char> {
        if errors.len() > 0 {
            errors[0]@
        } else {
            "Unknown error"@
        }
    }

    /// The record found by a lookup: a hard vendor error when the
    /// envelope reports failure; a hard error naming the record when the
    /// envelope succeeds but carries no matching record; otherwise the
    /// first record's identifier and value.
    pub fn interpret_lookup(&self, success: bool, errors: &Vec<String>, records: &Vec<
        DnsRecordInfo,
    >) -> (r: Result<(String, String), DdnsError>)
        ensures
            !success ==> (r matches Err(e) && e matches DdnsError::Provider { provider, message }
                && provider@ == "cloudflare"@ && message@ == Self::spec_first_error(errors@)),
            success && records@.len() == 0 ==> (r matches Err(e) && e matches DdnsError::Provider {
                provider,
                message,
            } && provider@ == "cloudflare"@ && message@ == "DNS record "@ + self.record_name@
                + " not found"@),
            success && records@.len() > 0 ==> (r matches Ok(p) && p.0 == records@[0].id && p.1
                == records@[0].content),
    {
        if !success {
            let m = if errors.len() > 0 {
                errors[0].clone()
            } else {
                String::from_str("Unknown error")
            };
            return Err(
                DdnsError::Provider { provider: String::from_str("cloudflare"), message: m },
            );
        }
        if records.len() == 0 {
            let mut m = String::from_str("DNS record ");
            m.append(self.record_name.as_str());
            m.append(" not found");
            return Err(
                DdnsError::Provider { provider: String::from_str("cloudflare"), message: m },
            );
        }
        let id = records[0].id.clone();
        let content = records[0].content.clone();
        Ok((id, content))
    }

    /// The partial-update request that writes `ip`: type by address
    /// family, the configured name and proxy flag, the address as value.
    pub fn update_request(&self, ip: &IpAddress) -> (r: CfUpdateRequest)
        ensures
            ip.spec_is_ipv4() ==> r.record_type@ == "A"@,
            !ip.spec_is_ipv4() ==> r.record_type@ == "AAAA"@,
            r.name == self.record_name,
            r.content@ == ip.ip_chars(),
            r.proxied == self.proxied,
    {
        CfUpdateRequest {
            record_type: String::from_str(record_type_for(ip)),
            name: self.record_name.clone(),
            content: ip.to_text(),
            proxied: self.proxied,
        }
    }

    /// The outcome for `ip` given the patch answer's envelope: success
    /// exactly when the envelope reports success; otherwise a soft
    /// failure carrying the envelope's first error message.
    pub fn interpret_update(
        &self,
        ip: &IpAddress,
        success: bool,
        errors: &Vec<String>,
        previous_ip: Option<IpAddress>,
    ) -> (r: UpdateResult)
        ensures
            r.wf(),
            r.provider@ == "cloudflare"@,
            r.domain@ == self.spec_domain(),
            r.success == success,
            r.success ==> r.ip == Some(*ip),
            !r.success ==> (r.error matches Some(e) && e@ == Self::spec_first_error(errors@)),
            r.previous_ip == previous_ip,
    {
        let timestamp = now_unix();
        if success {
            UpdateResult::made(
                String::from_str("cloudflare"),
                self.domain(),
                *ip,
                previous_ip,
                timestamp,
            )
        } else {
            let m = if errors.len() > 0 {
                errors[0].clone()
            } else {
                String::from_str("Unknown error")
            };
            UpdateResult::refused(
                String::from_str("cloudflare"),
                self.domain(),
                m,
                previous_ip,
                timestamp,
            )
        }
    }
}

} // verus!
