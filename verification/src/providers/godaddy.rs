//! GoDaddy provider.
//!
//! GoDaddy authenticates with an `sso-key` header and replaces the whole
//! record array with a PUT. Success of an update is decided purely by the
//! HTTP status class of that PUT; the current value is read back from a
//! GET whose failures are swallowed.

use vstd::prelude::*;

use crate::ip::{IpAddress, parse_ip, spec_parse_ip};
use crate::error::DdnsError;
use crate::text::str_eq;
use crate::spec_is_success_status;
use crate::is_success_status;
use super::{UpdateResult, now_unix, record_type_for};

verus! {

/// GoDaddy provider instance: resolved key pair and the record identity.
#[derive(Clone, Debug)]
pub struct GoDaddyProvider {
    /// Resolved API key.
    pub api_key: String,
    /// Resolved API secret.
    pub api_secret: String,
    /// Registered domain.
    pub domain: String,
    /// Subdomain, `@` for the bare domain.
    pub name: String,
    /// Record time-to-live in seconds.
    pub ttl: u32,
    /// Base URL of the vendor API.
    pub base_url: String,
}

/// One record entry as the PUT body carries it: the value and its
/// time-to-live.
#[derive(Clone, Debug)]
pub struct GoDaddyRecord {
    /// Record value.
    pub data: String,
    /// Time-to-live in seconds.
    pub ttl: u32,
}

impl GoDaddyProvider {
    /// Create a provider against the vendor's own endpoint.
    pub fn new(api_key: String, api_secret: String, domain: String, name: String, ttl: u32) -> (r:
        Self)
        ensures
            r.api_key == api_key,
            r.api_secret == api_secret,
            r.domain == domain,
            r.name == name,
            r.ttl == ttl,
            r.base_url@ == "https://api.godaddy.com"@,
    {
        Self::with_base_url(
            api_key,
            api_secret,
            domain,
            name,
            ttl,
            String::from_str("https://api.godaddy.com"),
        )
    }

    /// Create a provider against a chosen base URL.
    pub fn with_base_url(
        api_key: String,
        api_secret: String,
        domain: String,
        name: String,
        ttl: u32,
        base_url: String,
    ) -> (r: Self)
        ensures
            r.api_key == api_key,
            r.api_secret == api_secret,
            r.domain == domain,
            r.name == name,
            r.ttl == ttl,
            r.base_url == base_url,
    {
        GoDaddyProvider { api_key, api_secret, domain, name, ttl, base_url }
    }

    /// The vendor identifier.
    pub fn name(&self) -> (r: &'static str)
        ensures
            r@ == "godaddy"@,
    {
        "godaddy"
    }

    /// The record this instance manages: the bare domain when the name is
    /// the root marker `@`, otherwise name-dot-domain.
    pub open spec fn spec_domain(self) -> Seq<char> {
        if self.name@ == "@"@ {
            self.domain@
        } else {
            self.name@ + "."@ + self.domain@
        }
    }

    /// The record this instance manages.
    pub fn domain(&self) -> (r: String)
        ensures
            r@ == self.spec_domain(),
    {
        if str_eq(self.name.as_str(), "@") {
            self.domain.clone()
        } else {
            let mut s = self.name.clone();
            s.append(".");
            s.append(self.domain.as_str());
            s
        }
    }

    /// The `Authorization` header value: `sso-key {key}:{secret}`.
    pub fn auth_header(&self) -> (r: String)
        ensures
            r@ == "sso-key "@ + self.api_key@ + ":"@ + self.api_secret@,
    {
        let mut s = String::from_str("sso-key ");
        s.append(self.api_key.as_str());
        s.append(":");
        s.append(self.api_secret.as_str());
        s
    }

    /// The record URL for a record type: `{base}/v1/domains/{domain}/records/{type}/{name}`.
    pub fn record_url(&self, record_type: &str) -> (r: String)
        ensures
            r@ == self.base_url@ + "/v1/domains/"@ + self.domain@ + "/records/"@ + record_type@
                + "/"@ + self.name@,
    {
        let mut s = self.base_url.clone();
        s.append("/v1/domains/");
        s.append(self.domain.as_str());
        s.append("/records/");
        s.append(record_type);
        s.append("/");
        s.append(self.name.as_str());
        s
    }

    /// The PUT body for writing `ip`: a single record with the configured
    /// time-to-live.
    pub fn update_records(&self, ip: &IpAddress) -> (r: Vec<GoDaddyRecord>)
        ensures
            r@.len() == 1,
            r@[0].data@ == ip.ip_chars(),
            r@[0].ttl == self.ttl,
    {
        let mut v: Vec<GoDaddyRecord> = Vec::new();
        v.push(GoDaddyRecord { data: ip.to_text(), ttl: self.ttl });
        v
    }

    /// The current record value given the GET response: nothing on a
    /// non-success status or an empty record set, otherwise the first
    /// record's value as an address, if it parses.
    pub fn interpret_current(&self, status: u16, first_data: Option<&String>) -> (r: Option<
        IpAddress,
    >)
        ensures
            !spec_is_success_status(status) ==> r is None,
            spec_is_success_status(status) ==> r == match first_data {
                Some(s) => spec_parse_ip(s@),
                None => None::<IpAddress>,
            },
    {
        if !is_success_status(status) {
            return None;
        }
        match first_data {
            Some(s) => parse_ip(s.as_str()),
            None => None,
        }
    }

    /// The outcome for `ip` given the PUT status and the message parsed
    /// from an error body: success exactly when the status is 2xx,
    /// whatever the body holds; otherwise a soft failure carrying the
    /// parsed message, or a fixed text when none parsed.
    pub fn interpret_update(
        &self,
        ip: &IpAddress,
        status: u16,
        error_message: Option<String>,
        previous_ip: Option<IpAddress>,
    ) -> (r: UpdateResult)
        ensures
            r.wf(),
            r.provider@ == "godaddy"@,
            r.domain@ == self.spec_domain(),
            r.success == spec_is_success_status(status),
            r.success ==> r.ip == Some(*ip),
            !r.success ==> (r.error matches Some(e) && e@ == match error_message {
                Some(m) => m@,
                None => "Unknown error"@,
            }),
            r.previous_ip == previous_ip,
    {
        let timestamp = now_unix();
        if is_success_status(status) {
            UpdateResult::made(
                String::from_str("godaddy"),
                self.domain(),
                *ip,
                previous_ip,
                timestamp,
            )
        } else {
            let e = match error_message {
                Some(m) => m,
                None => String::from_str("Unknown error"),
            };
            UpdateResult::refused(
                String::from_str("godaddy"),
                self.domain(),
                e,
                previous_ip,
                timestamp,
            )
        }
    }

    /// The validation verdict given the status of a GET on the record and
    /// the message parsed from an error body: valid exactly when the
    /// status is 2xx.
    pub fn interpret_validate(&self, status: u16, error_message: Option<String>) -> (r: Result<
        (),
        DdnsError,
    >)
        ensures
            r is Ok <==> spec_is_success_status(status),
            !spec_is_success_status(status) ==> (r matches Err(e) && e matches DdnsError::Provider {
                provider,
                message,
            } && provider@ == "godaddy"@ && message@ == match error_message {
                Some(m) => m@,
                None => "Authentication failed"@,
            }),
    {
        if is_success_status(status) {
            Ok(())
        } else {
            let m = match error_message {
                Some(m) => m,
                None => String::from_str("Authentication failed"),
            };
            Err(DdnsError::Provider { provider: String::from_str("godaddy"), message: m })
        }
    }

    /// The record type written for `ip`.
    pub fn record_type(&self, ip: &IpAddress) -> (r: &'static str)
        ensures
            ip.spec_is_ipv4() ==> r@ == "A"@,
            !ip.spec_is_ipv4() ==> r@ == "AAAA"@,
    {
        record_type_for(ip)
    }
}

} // verus!
