//! Namecheap dynamic-DNS provider.
//!
//! Namecheap is driven by a single GET with host, domain, password and
//! address as query parameters. The vendor cannot report a record's
//! current value, and answers with XML-like text: success exactly when it
//! contains `<ErrCount>0</ErrCount>`, with the failure message between
//! `<Err1>` and `</Err1>`.

use vstd::prelude::*;

use crate::ip::IpAddress;
use crate::error::DdnsError;
use crate::text::{contains_seq, contains_sub, tag_payload, extract_tag_payload, str_eq};
use super::{UpdateResult, now_unix};

verus! {

/// Namecheap provider instance: one resolved password and the record
/// identity.
#[derive(Clone, Debug)]
pub struct NamecheapProvider {
    /// Registered domain.
    pub domain: String,
    /// Subdomain, `@` for the bare domain.
    pub host: String,
    /// Resolved dynamic-DNS password.
    pub password: String,
    /// Base URL of the vendor API.
    pub base_url: String,
}

impl NamecheapProvider {
    /// Create a provider against the vendor's own endpoint.
    pub fn new(domain: String, host: String, password: String) -> (r: Self)
        ensures
            r.domain == domain,
            r.host == host,
            r.password == password,
            r.base_url@ == "https://dynamicdns.park-your-domain.com"@,
    {
        Self::with_base_url(
            domain,
            host,
            password,
            String::from_str("https://dynamicdns.park-your-domain.com"),
        )
    }

    /// Create a provider against a chosen base URL.
    pub fn with_base_url(domain: String, host: String, password: String, base_url: String) -> (r:
        Self)
        ensures
            r.domain == domain,
            r.host == host,
            r.password == password,
            r.base_url == base_url,
    {
        NamecheapProvider { domain, host, password, base_url }
    }

    /// The vendor identifier.
    pub fn name(&self) -> (r: &'static str)
        ensures
            r@ == "namecheap"@,
    {
        "namecheap"
    }

    /// The record this instance manages: the bare domain when the host is
    /// the root marker `@`, otherwise host-dot-domain.
    pub open spec fn spec_domain(self) -> Seq<char> {
        if self.host@ == "@"@ {
            self.domain@
        } else {
            self.host@ + "."@ + self.domain@
        }
    }

    /// The record this instance manages.
    pub fn domain(&self) -> (r: String)
        ensures
            r@ == self.spec_domain(),
    {
        if str_eq(self.host.as_str(), "@") {
            self.domain.clone()
        } else {
            let mut s = self.host.clone();
            s.append(".");
            s.append(self.domain.as_str());
            s
        }
    }

    /// The update request URL for `ip`.
    pub fn update_url(&self, ip: &IpAddress) -> (r: String)
        ensures
            r@ == self.base_url@ + "/update?host="@ + self.host@ + "&domain="@ + self.domain@
                + "&password="@ + self.password@ + "&ip="@ + ip.ip_chars(),
    {
        let mut s = self.base_url.clone();
        s.append("/update?host=");
        s.append(self.host.as_str());
        s.append("&domain=");
        s.append(self.domain.as_str());
        s.append("&password=");
        s.append(self.password.as_str());
        s.append("&ip=");
        let t = ip.to_text();
        s.append(t.as_str());
        s
    }

    /// The error text a failed response carries: the payload of the first
    /// `<Err1>` tag, or a fixed message when the tag is absent.
    pub open spec fn spec_error_text(body: Seq<char>) -> Seq<char> {
        match tag_payload(body, "<Err1>"@, "</Err1>"@) {
            Some(m) => m,
            None => "Unknown error"@,
        }
    }

    /// The outcome for `ip` given the response body of the update call:
    /// success exactly when the body contains `<ErrCount>0</ErrCount>`;
    /// otherwise a soft failure carrying the vendor's `<Err1>` message.
    pub fn interpret_update(&self, ip: &IpAddress, body: &str) -> (r: UpdateResult)
        ensures
            r.wf(),
            r.provider@ == "namecheap"@,
            r.domain@ == self.spec_domain(),
            r.success == contains_seq(body@, "<ErrCount>0</ErrCount>"@),
            r.success ==> r.ip == Some(*ip),
            !r.success ==> (r.error matches Some(e) && e@ == Self::spec_error_text(body@)),
            r.previous_ip is None,
    {
        let timestamp = now_unix();
        if contains_sub(body, "<ErrCount>0</ErrCount>") {
            UpdateResult::made(String::from_str("namecheap"), self.domain(), *ip, None, timestamp)
        } else {
            let e = match extract_tag_payload(body, "<Err1>", "</Err1>") {
                Some(m) => m,
                None => String::from_str("Unknown error"),
            };
            UpdateResult::refused(String::from_str("namecheap"), self.domain(), e, None, timestamp)
        }
    }

    /// Check the configuration locally: the password must be present.
    /// Namecheap offers no validation endpoint.
    pub fn validate(&self) -> (r: Result<(), DdnsError>)
        ensures
            r is Ok <==> self.password@.len() > 0,
            self.password@.len() == 0 ==> (r matches Err(e) && e matches DdnsError::Provider {
                provider,
                message,
            } && provider@ == "namecheap"@ && message@ == "Password is empty"@),
    {
        if self.password.as_str().is_empty() {
            return Err(
                DdnsError::Provider {
                    provider: String::from_str("namecheap"),
                    message: String::from_str("Password is empty"),
                },
            );
        }
        Ok(())
    }
}

} // verus!
