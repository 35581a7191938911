//! Error taxonomy of the client.
//!
//! Configuration, transport, vendor and detection failures are kept
//! apart, because they propagate differently: vendor rejections become
//! soft failures inside an update result, while transport failures
//! surface as hard errors for the provider concerned.

use vstd::prelude::*;

verus! {

/// The failures the client distinguishes.
#[derive(Clone, Debug)]
pub enum DdnsError {
    /// Malformed or unreadable configuration.
    Config(String),
    /// Transport-level failure: connection, lookup, timeout.
    Network(String),
    /// The vendor rejected the operation or reported malformed data.
    Provider { provider: String, message: String },
    /// Every IP detection endpoint failed.
    IpDetection(String),
    /// File-system failure.
    Io(String),
    /// Encoding or decoding failure.
    Serialization(String),
}

impl DdnsError {
    /// The rendered message of the error, one fixed prefix per variant.
    pub open spec fn message_chars(self) -> Seq<char> {
        match self {
            DdnsError::Config(s) => "Configuration error: "@ + s@,
            DdnsError::Network(s) => "Network error: "@ + s@,
            DdnsError::Provider { provider, message } => "Provider error ("@ + provider@ + "): "@
                + message@,
            DdnsError::IpDetection(s) => "IP detection failed: "@ + s@,
            DdnsError::Io(s) => "IO error: "@ + s@,
            DdnsError::Serialization(s) => "Serialization error: "@ + s@,
        }
    }

    /// Render the error as text.
    pub fn message(&self) -> (r: String)
        ensures
            r@ == self.message_chars(),
    {
        match self {
            DdnsError::Config(s) => {
                let mut m = String::from_str("Configuration error: ");
                m.append(s.as_str());
                m
            },
            DdnsError::Network(s) => {
                let mut m = String::from_str("Network error: ");
                m.append(s.as_str());
                m
            },
            DdnsError::Provider { provider, message } => {
                let mut m = String::from_str("Provider error (");
                m.append(provider.as_str());
                m.append("): ");
                m.append(message.as_str());
                m
            },
            DdnsError::IpDetection(s) => {
                let mut m = String::from_str("IP detection failed: ");
                m.append(s.as_str());
                m
            },
            DdnsError::Io(s) => {
                let mut m = String::from_str("IO error: ");
                m.append(s.as_str());
                m
            },
            DdnsError::Serialization(s) => {
                let mut m = String::from_str("Serialization error: ");
                m.append(s.as_str());
                m
            },
        }
    }
}

} // verus!
