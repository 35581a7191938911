//! A dynamic-DNS client library: a uniform provider contract over four
//! vendor APIs (Cloudflare, DuckDNS, GoDaddy, Namecheap), credential
//! resolution, change-detection and update-reconciliation logic, and a
//! bounded history of update outcomes.
//!
//! All network transport lives outside this crate; the library holds the
//! decision logic, the request shapes and the response interpretation,
//! each with a verified contract.

use vstd::prelude::*;

pub mod config;
pub mod detect;
pub mod error;
pub mod history;
pub mod ip;
pub mod providers;
pub mod reconcile;
pub mod text;

verus! {

/// True when an HTTP status code is in the success class (2xx).
pub open spec fn spec_is_success_status(status: u16) -> bool {
    200 <= status < 300
}

/// Whether an HTTP status code counts as success (2xx).
pub fn is_success_status(status: u16) -> (r: bool)
    ensures
        r == spec_is_success_status(status),
{
    200 <= status && status < 300
}

} // verus!
