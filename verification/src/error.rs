//! The library's error taxonomy. Each variant carries the detail text that a
//! correlated error reply sends back.

use vstd::prelude::*;

verus! {

/// Why an operation failed.
///
/// `NotFound`: unknown owner or process. `InvalidPayload`: a command whose
/// payload does not match its kind. `UnsupportedCommand`: a command kind the
/// dispatcher does not handle. `TranslationFailure`: a malformed event
/// sub-structure. `TransportFailure`: a connection or send failure.
/// `UpstreamFailure`: the hooked client's control interface failed.
#[derive(Clone, Debug, PartialEq, Eq)]
pub enum AgentError {
    NotFound(String),
    InvalidPayload(String),
    UnsupportedCommand(String),
    TranslationFailure(String),
    TransportFailure(String),
    UpstreamFailure(String),
}

/// The reply text for an error: a fixed prefix naming the class, then the detail.
pub open spec fn spec_error_message(e: AgentError) -> Seq<char> {
    match e {
        AgentError::NotFound(d) => "not found: "@ + d@,
        AgentError::InvalidPayload(d) => "invalid payload: "@ + d@,
        AgentError::UnsupportedCommand(d) => "unsupported command: "@ + d@,
        AgentError::TranslationFailure(d) => "translation failure: "@ + d@,
        AgentError::TransportFailure(d) => "transport failure: "@ + d@,
        AgentError::UpstreamFailure(d) => "upstream failure: "@ + d@,
    }
}

impl AgentError {
    /// Human-readable text of the error, as sent in an error reply.
    pub fn message(&self) -> (r: String)
        ensures
            r@ == spec_error_message(*self),
    {
        match self {
            AgentError::NotFound(d) => String::from_str("not found: ").concat(d.as_str()),
            AgentError::InvalidPayload(d) => String::from_str("invalid payload: ").concat(
                d.as_str(),
            ),
            AgentError::UnsupportedCommand(d) => String::from_str("unsupported command: ").concat(
                d.as_str(),
            ),
            AgentError::TranslationFailure(d) => String::from_str("translation failure: ").concat(
                d.as_str(),
            ),
            AgentError::TransportFailure(d) => String::from_str("transport failure: ").concat(
                d.as_str(),
            ),
            AgentError::UpstreamFailure(d) => String::from_str("upstream failure: ").concat(
                d.as_str(),
            ),
        }
    }
}

} // verus!
