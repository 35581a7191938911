//! Interpretation of IP detection answers.
//!
//! Detection tries an ordered list of endpoints that answer with the
//! caller's address as plain text; the first answer that parses to an
//! address of the wanted family wins. This module judges one answer; the
//! fallback chain that fetches them is the caller's.

use vstd::prelude::*;

use crate::ip::{IpAddress, parse_ip, spec_parse_ip};
use crate::error::DdnsError;
use crate::text::{dec_str, trim_spec, trim_str, u64_to_string};
use crate::spec_is_success_status;
use crate::is_success_status;

verus! {

/// The verdict on one endpoint's answer: a detection failure naming the
/// endpoint on a non-success status; otherwise the trimmed body as an
/// address, or a detection failure quoting the body when it does not
/// parse.
pub fn interpret_service_response(status: u16, url: &str, body: &str) -> (r: Result<
    IpAddress,
    DdnsError,
>)
    ensures
        !spec_is_success_status(status) ==> (r matches Err(e) && e matches DdnsError::IpDetection(m)
            && m@ == "HTTP "@ + dec_str(status as nat) + " from "@ + url@),
        spec_is_success_status(status) ==> match spec_parse_ip(trim_spec(body@)) {
            Some(ip) => r == Ok::<IpAddress, DdnsError>(ip),
            None => r matches Err(e) && e matches DdnsError::IpDetection(m) && m@
                == "Invalid IP response: "@ + trim_spec(body@),
        },
{
    if !is_success_status(status) {
        let mut m = String::from_str("HTTP ");
        let code = u64_to_string(status as u64);
        m.append(code.as_str());
        m.append(" from ");
        m.append(url);
        return Err(DdnsError::IpDetection(m));
    }
    let trimmed = trim_str(body);
    match parse_ip(trimmed) {
        Some(ip) => Ok(ip),
        None => {
            let mut m = String::from_str("Invalid IP response: ");
            m.append(trimmed);
            Err(DdnsError::IpDetection(m))
        },
    }
}

/// Whether a detected address is of the wanted family.
pub fn accept_family(ip: &IpAddress, want_v4: bool) -> (r: bool)
    ensures
        r == (ip.spec_is_ipv4() == want_v4),
{
    ip.is_ipv4() == want_v4
}

} // verus!
