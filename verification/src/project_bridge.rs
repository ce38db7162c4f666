//! The project bridge's boundary rules: identifiers are parsed before any
//! service runs, and errors cross as payload-free envelopes.
use crate::error::{code_of, message_of, retryability_of, DomainError, DomainErrorCode, Retryability};
use crate::ids::{prefixed_value, ProjectId};
use vstd::prelude::*;

verus! {

/// A project error as the desktop shell receives it.
#[derive(Debug, Clone)]
pub struct ProjectBridgeError {
    pub code: DomainErrorCode,
    pub retryability: Retryability,
    pub message: String,
    pub correlation_id: Option<String>,
}

impl ProjectBridgeError {
    /// The message shown for the error.
    pub fn message(&self) -> (r: &str)
        ensures
            r@ == self.message@,
    {
        self.message.as_str()
    }
}

/// The bridge error for a domain error: its code, retryability and fixed
/// message, with the caller's correlation.
pub fn bridge_error(error: DomainError, correlation_id: Option<String>) -> (r: ProjectBridgeError)
    ensures
        r.code == code_of(&error),
        r.retryability == retryability_of(&error),
        r.message@ == message_of(&error),
        r.correlation_id == correlation_id,
{
    let envelope = error.envelope(correlation_id);
    ProjectBridgeError {
        code: envelope.code,
        retryability: envelope.retryability,
        message: envelope.message,
        correlation_id: envelope.correlation_id,
    }
}

/// Reads a project identifier; an unreadable one is a validation error
/// whose message never repeats the input.
pub fn parse_project_id(value: String, correlation_id: Option<String>) -> (r: Result<
    ProjectId,
    ProjectBridgeError,
>)
    ensures
        match prefixed_value(value@, "proj-"@) {
            Some(v) => r == Ok::<ProjectId, ProjectBridgeError>(ProjectId(v)),
            None => r matches Err(e) && e.code == DomainErrorCode::Validation && e.retryability
                == Retryability::Never && e.message@ == "Validation failed"@ && e.correlation_id
                == correlation_id,
        },
{
    match ProjectId::parse(value.as_str()) {
        Some(id) => Ok(id),
        None => Err(
            bridge_error(DomainError::Validation("invalid project id".to_string()), correlation_id),
        ),
    }
}

/// The instant an RFC 3339 text names, in milliseconds since the Unix
/// epoch, as chrono reads it; `None` where chrono refuses the text.
pub uninterp spec fn rfc3339_millis(text: Seq<char>) -> Option<i64>;

/// Calls chrono's `DateTime::parse_from_rfc3339`, converts the instant to
/// UTC and reads its milliseconds since the epoch; a refused text gives
/// `None`. The result is named, not stated: RFC 3339 parsing is chrono's.
#[verifier::external_body]
fn parse_rfc3339(text: &str) -> (r: Option<i64>)
    ensures
        r == rfc3339_millis(text@),
{
    chrono::DateTime::parse_from_rfc3339(text).ok().map(|d| d.with_timezone(&chrono::Utc).timestamp_millis())
}

/// The update time a project update expects to replace, read from the
/// caller's RFC 3339 text; an unreadable text is a validation error.
pub fn expected_update_time(value: Option<String>, correlation_id: Option<String>) -> (r: Result<
    Option<i64>,
    ProjectBridgeError,
>)
    ensures
        match value {
            None => r == Ok::<Option<i64>, ProjectBridgeError>(None),
            Some(v) => match rfc3339_millis(v@) {
                Some(t) => r == Ok::<Option<i64>, ProjectBridgeError>(Some(t)),
                None => r matches Err(e) && e.code == DomainErrorCode::Validation && e.message@
                    == "Validation failed"@ && e.correlation_id == correlation_id,
            },
        },
{
    match value {
        None => Ok(None),
        Some(v) => match parse_rfc3339(v.as_str()) {
            Some(t) => Ok(Some(t)),
            None => Err(
                bridge_error(
                    DomainError::Validation("invalid expected_updated_at".to_string()),
                    correlation_id,
                ),
            ),
        },
    }
}

#[derive(Debug, Clone, Copy, PartialEq, Eq)]
pub struct ProjectSettingsSummary {
    pub retention_days: u32,
    pub auto_archive_idle_days: Option<u32>,
    pub telemetry_enabled: bool,
    pub max_active_agents: u32,
}

#[derive(Debug, Clone)]
pub struct CreateProjectCommandInput {
    pub name: String,
    pub owner: String,
    pub description: Option<String>,
    pub correlation_id: Option<String>,
}

#[derive(Debug, Clone)]
pub struct ArchiveProjectCommandInput {
    pub id: String,
    pub reason: Option<String>,
    pub correlation_id: Option<String>,
}

} // verus!
