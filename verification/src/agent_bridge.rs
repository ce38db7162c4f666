//! The agent bridge's boundary rules: project identifiers are parsed before
//! any service runs, and errors cross as payload-free envelopes.
use crate::error::{code_of, message_of, retryability_of, DomainError, DomainErrorCode, Retryability};
use crate::ids::{prefixed_value, ProjectId};
use vstd::prelude::*;

verus! {

/// An agent error as the desktop shell receives it.
#[derive(Debug, Clone)]
pub struct AgentBridgeError {
    pub code: DomainErrorCode,
    pub retryability: Retryability,
    pub message: String,
    pub correlation_id: Option<String>,
}

impl AgentBridgeError {
    /// The message shown for the error.
    pub fn message(&self) -> (r: &str)
        ensures
            r@ == self.message@,
    {
        self.message.as_str()
    }
}

/// The bridge error for a domain error: its code, retryability and fixed
/// message, with the caller's correlation.
pub fn bridge_error(error: DomainError, correlation_id: Option<String>) -> (r: AgentBridgeError)
    ensures
        r.code == code_of(&error),
        r.retryability == retryability_of(&error),
        r.message@ == message_of(&error),
        r.correlation_id == correlation_id,
{
    let envelope = error.envelope(correlation_id);
    AgentBridgeError {
        code: envelope.code,
        retryability: envelope.retryability,
        message: envelope.message,
        correlation_id: envelope.correlation_id,
    }
}

/// Reads a project identifier; an unreadable one is a validation error
/// whose message never repeats the input.
pub fn parse_project_id(value: String, correlation_id: Option<String>) -> (r: Result<
    ProjectId,
    AgentBridgeError,
>)
    ensures
        match prefixed_value(value@, "proj-"@) {
            Some(v) => r == Ok::<ProjectId, AgentBridgeError>(ProjectId(v)),
            None => r matches Err(e) && e.code == DomainErrorCode::Validation && e.retryability
                == Retryability::Never && e.message@ == "Validation failed"@ && e.correlation_id
                == correlation_id,
        },
{
    match ProjectId::parse(value.as_str()) {
        Some(id) => Ok(id),
        None => Err(bridge_error(DomainError::Validation("invalid project id".to_string()), correlation_id)),
    }
}

#[derive(Debug, Clone, Default)]
pub struct ListAgentsCommandInput {
    pub project_id: String,
    pub limit: Option<usize>,
    pub offset: Option<usize>,
    pub correlation_id: Option<String>,
}

#[derive(Debug, Clone)]
pub struct CreateAgentCommandInput {
    pub project_id: String,
    pub name: String,
    pub description: Option<String>,
    pub correlation_id: Option<String>,
}

/// The page size and offset of an agent listing: twenty by default,
/// between one and a hundred, from an offset of at most ten thousand.
pub fn agent_page(limit: Option<usize>, offset: Option<usize>) -> (r: (usize, usize))
    ensures
        r.0 == (match limit {
            None => 20,
            Some(l) => if l < 1 {
                1
            } else if l > 100 {
                100
            } else {
                l
            },
        }),
        r.1 == (match offset {
            None => 0,
            Some(o) => if o > 10_000 {
                10_000
            } else {
                o
            },
        }),
{
    crate::session_bridge::page_window(limit, offset)
}

} // verus!
