//! The failure taxonomy of the pipeline. Every failure is terminal for its
//! scope: configuration and fetch-phase errors end the run, while errors
//! inside the per-issue loop end only that issue's processing.

use vstd::prelude::*;
use vstd::string::{StringExecFns};

verus! {

/// One tagged variant per failure kind, each carrying the upstream message
/// or payload where one exists.
#[derive(Debug)]
pub enum FlowError {
    /// A required configuration value is absent; the payload names it.
    Config(String),
    /// A transport failure or a non-success response; the payload holds
    /// the transport message or the response body.
    Network(String),
    /// A response that could not be decoded; the payload holds it.
    Decode(String),
    /// The generation service reported a structured error; the payload is
    /// its message, verbatim.
    Api(String),
    /// The generation service answered without any usable candidate.
    EmptyResponse,
    /// An expected resource was absent, such as a commit list without a
    /// single hash.
    NotFound,
}

impl FlowError {
    /// A human-readable line for logging: the kind, then the payload.
    pub fn message(&self) -> (r: String)
        ensures
            match self {
                FlowError::Config(m) => r@ == "missing configuration value: "@ + m@,
                FlowError::Network(m) => r@ == "network error: "@ + m@,
                FlowError::Decode(m) => r@ == "undecodable response: "@ + m@,
                FlowError::Api(m) => r@ == "service error: "@ + m@,
                FlowError::EmptyResponse => r@ == "the response has no candidates"@,
                FlowError::NotFound => r@ == "expected resource is absent"@,
            },
    {
        match self {
            FlowError::Config(m) => {
                let mut s = String::from_str("missing configuration value: ");
                s.append(m.as_str());
                s
            },
            FlowError::Network(m) => {
                let mut s = String::from_str("network error: ");
                s.append(m.as_str());
                s
            },
            FlowError::Decode(m) => {
                let mut s = String::from_str("undecodable response: ");
                s.append(m.as_str());
                s
            },
            FlowError::Api(m) => {
                let mut s = String::from_str("service error: ");
                s.append(m.as_str());
                s
            },
            FlowError::EmptyResponse => String::from_str("the response has no candidates"),
            FlowError::NotFound => String::from_str("expected resource is absent"),
        }
    }
}

} // verus!
