//! The session bridge's boundary rules: identifiers and titles are checked
//! before the session service runs, listings are bounded, and service
//! failures cross as payload-free envelopes.
use crate::error::{DomainError, DomainErrorCode, Retryability};
use crate::ids::{prefixed_value, AgentId, ProjectId};
use crate::text::{contains_control, has_control, text_len, trim_text, trimmed, utf8_len};
use vstd::prelude::*;
use vstd::string::StrSliceExecFns;

verus! {

pub const DEFAULT_SESSION_PAGE: usize = 20;

pub const MAX_SESSION_PAGE: usize = 100;

pub const MAX_SESSION_OFFSET: usize = 10_000;

pub const MAX_TITLE_BYTES: usize = 256;

/// A session error as the desktop shell receives it.
#[derive(Debug, Clone)]
pub struct SessionBridgeError {
    pub code: DomainErrorCode,
    pub retryability: Retryability,
    pub message: String,
    pub correlation_id: Option<String>,
}

impl SessionBridgeError {
    /// The message shown for the error.
    pub fn message(&self) -> (r: &str)
        ensures
            r@ == self.message@,
    {
        self.message.as_str()
    }
}

/// How the session store failed.
#[derive(Debug, Clone, Copy, PartialEq, Eq, Structural)]
pub enum SessionStorageError {
    NotFound,
    ScopeMismatch,
    Conflict,
    Invalid,
    Serialization,
    Database,
}

/// How the session service failed.
#[derive(Debug, Clone, Copy, PartialEq, Eq, Structural)]
pub enum SessionServiceError {
    Storage(SessionStorageError),
    MessageStorage,
    Unauthorized,
    Invalid,
    State,
    SessionClosed,
    Cancelled,
    ProviderFailure,
    Budget,
    Concurrency,
}

/// The domain error code a service failure is reported with.
pub open spec fn session_code(e: SessionServiceError) -> DomainErrorCode {
    match e {
        SessionServiceError::Storage(s) => match s {
            SessionStorageError::NotFound => DomainErrorCode::NotFound,
            SessionStorageError::ScopeMismatch => DomainErrorCode::PermissionDenied,
            SessionStorageError::Conflict => DomainErrorCode::InvariantViolation,
            SessionStorageError::Invalid => DomainErrorCode::Validation,
            SessionStorageError::Serialization => DomainErrorCode::InvariantViolation,
            SessionStorageError::Database => DomainErrorCode::InvariantViolation,
        },
        SessionServiceError::MessageStorage => DomainErrorCode::InvariantViolation,
        SessionServiceError::Unauthorized => DomainErrorCode::PermissionDenied,
        SessionServiceError::Invalid => DomainErrorCode::Validation,
        SessionServiceError::State => DomainErrorCode::InvalidStateTransition,
        SessionServiceError::SessionClosed => DomainErrorCode::InvalidStateTransition,
        SessionServiceError::Cancelled => DomainErrorCode::InvariantViolation,
        SessionServiceError::ProviderFailure => DomainErrorCode::CapabilityUnavailable,
        SessionServiceError::Budget => DomainErrorCode::BudgetExceeded,
        SessionServiceError::Concurrency => DomainErrorCode::InvariantViolation,
    }
}

/// The fixed message a service failure is reported with.
pub open spec fn session_message(e: SessionServiceError) -> Seq<char> {
    match e {
        SessionServiceError::Storage(s) => match s {
            SessionStorageError::NotFound => "Entity not found"@,
            SessionStorageError::ScopeMismatch => "Permission denied"@,
            SessionStorageError::Conflict => "Concurrency conflict"@,
            SessionStorageError::Invalid => "Validation failed"@,
            SessionStorageError::Serialization => "Invariant violation"@,
            SessionStorageError::Database => "Invariant violation"@,
        },
        SessionServiceError::MessageStorage => "Invariant violation"@,
        SessionServiceError::Unauthorized => "Permission denied"@,
        SessionServiceError::Invalid => "Validation failed"@,
        SessionServiceError::State => "Invalid state transition"@,
        SessionServiceError::SessionClosed => "Invalid state transition"@,
        SessionServiceError::Cancelled => "Invariant violation"@,
        SessionServiceError::ProviderFailure => "Capability not available"@,
        SessionServiceError::Budget => "Budget exceeded"@,
        SessionServiceError::Concurrency => "Invariant violation"@,
    }
}

/// The bridge error for a domain error: its code, retryability and fixed
/// message, with the caller's correlation.
pub fn bridge_error(error: DomainError, correlation_id: Option<String>) -> (r: SessionBridgeError)
    ensures
        r.code == crate::error::code_of(&error),
        r.retryability == crate::error::retryability_of(&error),
        r.message@ == crate::error::message_of(&error),
        r.correlation_id == correlation_id,
{
    let envelope = error.envelope(correlation_id);
    SessionBridgeError {
        code: envelope.code,
        retryability: envelope.retryability,
        message: envelope.message,
        correlation_id: envelope.correlation_id,
    }
}

/// The bridge error for a failure of the session service.
pub fn session_error(error: SessionServiceError, correlation_id: Option<String>) -> (r: SessionBridgeError)
    ensures
        r.code == session_code(error),
        r.retryability == Retryability::Never,
        r.message@ == session_message(error),
        r.correlation_id == correlation_id,
{
    let domain_error = match error {
        SessionServiceError::Storage(storage) => match storage {
            SessionStorageError::NotFound => DomainError::NotFound("session".to_string()),
            SessionStorageError::ScopeMismatch => DomainError::PermissionDenied {
                capability: "session.read".to_string(),
                reason: "session is outside the requested scope".to_string(),
            },
            SessionStorageError::Conflict => DomainError::ConcurrencyConflict {
                expected: "current session version".to_string(),
                actual: "stale session version".to_string(),
            },
            SessionStorageError::Invalid => DomainError::Validation("invalid session request".to_string()),
            SessionStorageError::Serialization | SessionStorageError::Database => {
                DomainError::InvariantViolation("session persistence failed".to_string())
            },
        },
        SessionServiceError::MessageStorage => DomainError::InvariantViolation(
            "session message persistence failed".to_string(),
        ),
        SessionServiceError::Unauthorized => DomainError::PermissionDenied {
            capability: "session.access".to_string(),
            reason: "session is outside the requested scope".to_string(),
        },
        SessionServiceError::Invalid => DomainError::Validation("invalid session request".to_string()),
        SessionServiceError::State => DomainError::InvalidStateTransition {
            from: "current".to_string(),
            to: "requested".to_string(),
        },
        SessionServiceError::SessionClosed => DomainError::InvalidStateTransition {
            from: "closed".to_string(),
            to: "active".to_string(),
        },
        SessionServiceError::Cancelled => DomainError::InvariantViolation(
            "session lifecycle operation was cancelled".to_string(),
        ),
        SessionServiceError::ProviderFailure => DomainError::CapabilityUnavailable(
            "session turn execution".to_string(),
        ),
        SessionServiceError::Budget => DomainError::BudgetExceeded {
            budget_type: "session".to_string(),
            limit: "configured".to_string(),
            used: "exceeded".to_string(),
        },
        SessionServiceError::Concurrency => DomainError::InvariantViolation(
            "session concurrency limit reached".to_string(),
        ),
    };
    bridge_error(domain_error, correlation_id)
}

/// Reads a project identifier; an unreadable one is a validation error
/// whose message never repeats the input.
pub fn parse_project_id(value: String, correlation_id: Option<String>) -> (r: Result<
    ProjectId,
    SessionBridgeError,
>)
    ensures
        match prefixed_value(value@, "proj-"@) {
            Some(v) => r == Ok::<ProjectId, SessionBridgeError>(ProjectId(v)),
            None => r matches Err(e) && e.code == DomainErrorCode::Validation && e.retryability
                == Retryability::Never && e.message@ == "Validation failed"@ && e.correlation_id
                == correlation_id,
        },
{
    match ProjectId::parse(value.as_str()) {
        Some(id) => Ok(id),
        None => Err(bridge_error(DomainError::Validation("invalid project id".to_string()), correlation_id)),
    }
}

/// Reads an agent identifier; an unreadable one is a validation error
/// whose message never repeats the input.
pub fn parse_agent_id(value: String, correlation_id: Option<String>) -> (r: Result<
    AgentId,
    SessionBridgeError,
>)
    ensures
        match prefixed_value(value@, "agent-"@) {
            Some(v) => r == Ok::<AgentId, SessionBridgeError>(AgentId(v)),
            None => r matches Err(e) && e.code == DomainErrorCode::Validation && e.retryability
                == Retryability::Never && e.message@ == "Validation failed"@ && e.correlation_id
                == correlation_id,
        },
{
    match AgentId::parse(value.as_str()) {
        Some(id) => Ok(id),
        None => Err(bridge_error(DomainError::Validation("invalid agent id".to_string()), correlation_id)),
    }
}

/// A session title, trimmed: none when absent or blank, refused when too
/// long or holding a control character.
pub fn bounded_title(title: Option<String>, correlation_id: Option<String>) -> (r: Result<
    Option<String>,
    SessionBridgeError,
>)
    ensures
        match title {
            None => r matches Ok(t) && t is None,
            Some(t) => {
                let s = trimmed(t@);
                if s.len() == 0 {
                    r matches Ok(x) && x is None
                } else if utf8_len(s) > MAX_TITLE_BYTES || has_control(s) {
                    r matches Err(e) && e.code == DomainErrorCode::Validation && e.message@
                        == "Validation failed"@ && e.correlation_id == correlation_id
                } else {
                    r matches Ok(x) && x matches Some(v) && v@ == s
                }
            },
        },
{
    let title = match title {
        None => {
            return Ok(None);
        },
        Some(t) => t,
    };
    let text = trim_text(title.as_str());
    if text.unicode_len() == 0 {
        return Ok(None);
    }
    if text_len(text) > MAX_TITLE_BYTES || contains_control(text) {
        return Err(
            bridge_error(
                DomainError::Validation("session title is invalid or oversized".to_string()),
                correlation_id,
            ),
        );
    }
    Ok(Some(text.to_string()))
}

/// The page size and offset a listing uses: twenty by default, between one
/// and a hundred, from an offset of at most ten thousand.
pub fn page_window(limit: Option<usize>, offset: Option<usize>) -> (r: (usize, usize))
    ensures
        r.0 == (match limit {
            None => DEFAULT_SESSION_PAGE,
            Some(l) => if l < 1 {
                1
            } else if l > MAX_SESSION_PAGE {
                MAX_SESSION_PAGE
            } else {
                l
            },
        }),
        r.1 == (match offset {
            None => 0,
            Some(o) => if o > MAX_SESSION_OFFSET {
                MAX_SESSION_OFFSET
            } else {
                o
            },
        }),
{
    let l = match limit {
        None => DEFAULT_SESSION_PAGE,
        Some(l) => l,
    };
    let l = if l < 1 {
        1
    } else if l > MAX_SESSION_PAGE {
        MAX_SESSION_PAGE
    } else {
        l
    };
    let o = match offset {
        None => 0,
        Some(o) => o,
    };
    let o = if o > MAX_SESSION_OFFSET {
        MAX_SESSION_OFFSET
    } else {
        o
    };
    (l, o)
}

#[derive(Debug, Clone, Default)]
pub struct ListSessionsCommandInput {
    pub project_id: String,
    pub agent_id: String,
    pub limit: Option<usize>,
    pub offset: Option<usize>,
    pub correlation_id: Option<String>,
}

#[derive(Debug, Clone)]
pub struct CreateSessionCommandInput {
    pub project_id: String,
    pub agent_id: String,
    pub title: Option<String>,
    pub correlation_id: String,
}

/// What the project and agent lookups of a session request found, as
/// whether each is active: a missing project or agent is not found.
pub fn check_scope(
    project_active: Option<bool>,
    agent_active: Option<bool>,
    correlation_id: Option<String>,
) -> (r: Result<(bool, bool), SessionBridgeError>)
    ensures
        project_active is None ==> (r matches Err(e) && e.code == DomainErrorCode::NotFound
            && e.message@ == "Entity not found"@ && e.correlation_id == correlation_id),
        project_active is Some && agent_active is None ==> (r matches Err(e) && e.code
            == DomainErrorCode::NotFound && e.message@ == "Entity not found"@ && e.correlation_id
            == correlation_id),
        project_active is Some && agent_active is Some ==> r == Ok::<(bool, bool), SessionBridgeError>(
            (project_active->0, agent_active->0),
        ),
{
    let p = match project_active {
        Some(p) => p,
        None => {
            return Err(bridge_error(DomainError::NotFound("project".to_string()), correlation_id));
        },
    };
    match agent_active {
        Some(a) => Ok((p, a)),
        None => Err(bridge_error(DomainError::NotFound("agent".to_string()), correlation_id)),
    }
}

/// A session is created only for an active project and then an active
/// agent: an unavailable project cannot take an active session, and an
/// inactive agent may not create one.
pub fn require_creation_scope(
    project_active: bool,
    agent_active: bool,
    correlation_id: Option<String>,
) -> (r: Result<(), SessionBridgeError>)
    ensures
        r is Ok <==> project_active && agent_active,
        !project_active ==> (r matches Err(e) && e.code == DomainErrorCode::InvalidStateTransition
            && e.message@ == "Invalid state transition"@ && e.correlation_id == correlation_id),
        project_active && !agent_active ==> (r matches Err(e) && e.code
            == DomainErrorCode::PermissionDenied && e.retryability == Retryability::Never
            && e.message@ == "Permission denied"@ && e.correlation_id == correlation_id),
{
    if !project_active {
        return Err(
            bridge_error(
                DomainError::InvalidStateTransition {
                    from: "project_unavailable".to_string(),
                    to: "session_active".to_string(),
                },
                correlation_id,
            ),
        );
    }
    if !agent_active {
        return Err(
            bridge_error(
                crate::error::permission_error("session.create", "agent is not active"),
                correlation_id,
            ),
        );
    }
    Ok(())
}

} // verus!
