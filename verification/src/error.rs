//! Error type shared by the validation and aggregation layers.

use vstd::prelude::*;
use vstd::string::StringExecFns;

verus! {

/// The failure classes of the monitor. Network failures and certificate
/// failures are always attributable to a single domain; config failures
/// belong to the surrounding input handling.
#[derive(Debug, Clone)]
pub enum MonitorError {
    Network(String),
    Tls(String),
    Certificate(String),
    Config(String),
    Expired,
    General(String),
}

/// The human-readable message for an error, as a sequence of characters:
/// a class prefix followed by the detail carried by the variant.
pub open spec fn message_of(e: MonitorError) -> Seq<char> {
    match e {
        MonitorError::Network(s) => "network error: "@ + s@,
        MonitorError::Tls(s) => "TLS error: "@ + s@,
        MonitorError::Certificate(s) => "certificate error: "@ + s@,
        MonitorError::Config(s) => "config error: "@ + s@,
        MonitorError::Expired => "certificate expired"@,
        MonitorError::General(s) => "general error: "@ + s@,
    }
}

impl MonitorError {
    /// Renders the error as its human-readable message.
    pub fn render(&self) -> (r: String)
        ensures
            r@ == message_of(*self),
    {
        match self {
            MonitorError::Network(s) => "network error: ".to_owned().concat(s.as_str()),
            MonitorError::Tls(s) => "TLS error: ".to_owned().concat(s.as_str()),
            MonitorError::Certificate(s) => "certificate error: ".to_owned().concat(s.as_str()),
            MonitorError::Config(s) => "config error: ".to_owned().concat(s.as_str()),
            MonitorError::Expired => "certificate expired".to_owned(),
            MonitorError::General(s) => "general error: ".to_owned().concat(s.as_str()),
        }
    }
}

} // verus!
