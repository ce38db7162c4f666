//! Domain errors and the safe envelope handed across outer boundaries.
use vstd::prelude::*;

verus! {

#[verifier::external_type_specification]
#[verifier::external_body]
pub struct ExJsonError(serde_json::Error);

#[verifier::external_type_specification]
#[verifier::external_body]
pub struct ExUuidError(uuid::Error);

#[verifier::external_type_specification]
#[verifier::external_body]
pub struct ExIoError(std::io::Error);

#[derive(Debug, Clone, Copy, PartialEq, Eq, Structural)]
pub enum DomainErrorCode {
    InvalidStateTransition,
    NotFound,
    Duplicate,
    InvariantViolation,
    Validation,
    PermissionDenied,
    BudgetExceeded,
    CapabilityUnavailable,
    Provider,
    Tool,
    Workflow,
    Serialization,
    Uuid,
    Io,
}

#[derive(Debug, Clone, Copy, PartialEq, Eq, Structural)]
pub enum Retryability {
    Never,
    Conditional,
    Safe,
}

#[derive(Debug, Clone)]
pub struct DomainErrorEnvelope {
    pub code: DomainErrorCode,
    pub retryability: Retryability,
    pub message: String,
    pub correlation_id: Option<String>,
}

#[derive(Debug)]
pub enum DomainError {
    InvalidStateTransition { from: String, to: String },
    NotFound(String),
    Duplicate(String),
    InvariantViolation(String),
    Validation(String),
    PermissionDenied { capability: String, reason: String },
    BudgetExceeded { budget_type: String, limit: String, used: String },
    CapabilityUnavailable(String),
    ProviderError { provider: String, message: String },
    ToolError { tool: String, message: String },
    WorkflowError { workflow: String, message: String },
    Serialization(serde_json::Error),
    Uuid(uuid::Error),
    Io(std::io::Error),
    ConcurrencyConflict { expected: String, actual: String },
}

pub type DomainResult<T> = Result<T, DomainError>;

pub open spec fn code_of(e: &DomainError) -> DomainErrorCode {
    match e {
        DomainError::InvalidStateTransition { .. } => DomainErrorCode::InvalidStateTransition,
        DomainError::NotFound(_) => DomainErrorCode::NotFound,
        DomainError::Duplicate(_) => DomainErrorCode::Duplicate,
        DomainError::InvariantViolation(_) => DomainErrorCode::InvariantViolation,
        DomainError::Validation(_) => DomainErrorCode::Validation,
        DomainError::PermissionDenied { .. } => DomainErrorCode::PermissionDenied,
        DomainError::BudgetExceeded { .. } => DomainErrorCode::BudgetExceeded,
        DomainError::CapabilityUnavailable(_) => DomainErrorCode::CapabilityUnavailable,
        DomainError::ProviderError { .. } => DomainErrorCode::Provider,
        DomainError::ToolError { .. } => DomainErrorCode::Tool,
        DomainError::WorkflowError { .. } => DomainErrorCode::Workflow,
        DomainError::Serialization(_) => DomainErrorCode::Serialization,
        DomainError::Uuid(_) => DomainErrorCode::Uuid,
        DomainError::Io(_) => DomainErrorCode::Io,
        DomainError::ConcurrencyConflict { .. } => DomainErrorCode::InvariantViolation,
    }
}

pub open spec fn retryability_of(e: &DomainError) -> Retryability {
    match e {
        DomainError::ProviderError { .. } | DomainError::ToolError { .. }
        | DomainError::WorkflowError { .. } => Retryability::Conditional,
        DomainError::Io(_) => Retryability::Safe,
        _ => Retryability::Never,
    }
}

/// The fixed, payload-free message of each error kind.
pub open spec fn message_of(e: &DomainError) -> Seq<char> {
    match e {
        DomainError::InvalidStateTransition { .. } => "Invalid state transition"@,
        DomainError::NotFound(_) => "Entity not found"@,
        DomainError::Duplicate(_) => "Duplicate entity"@,
        DomainError::InvariantViolation(_) => "Invariant violation"@,
        DomainError::Validation(_) => "Validation failed"@,
        DomainError::PermissionDenied { .. } => "Permission denied"@,
        DomainError::BudgetExceeded { .. } => "Budget exceeded"@,
        DomainError::CapabilityUnavailable(_) => "Capability not available"@,
        DomainError::ProviderError { .. } => "Provider error"@,
        DomainError::ToolError { .. } => "Tool execution failed"@,
        DomainError::WorkflowError { .. } => "Workflow error"@,
        DomainError::Serialization(_) => "Serialization error"@,
        DomainError::Uuid(_) => "UUID error"@,
        DomainError::Io(_) => "IO error"@,
        DomainError::ConcurrencyConflict { .. } => "Concurrency conflict"@,
    }
}

impl DomainError {
    pub fn code(&self) -> (r: DomainErrorCode)
        ensures
            r == code_of(self),
    {
        match self {
            DomainError::InvalidStateTransition { .. } => DomainErrorCode::InvalidStateTransition,
            DomainError::NotFound(_) => DomainErrorCode::NotFound,
            DomainError::Duplicate(_) => DomainErrorCode::Duplicate,
            DomainError::InvariantViolation(_) => DomainErrorCode::InvariantViolation,
            DomainError::Validation(_) => DomainErrorCode::Validation,
            DomainError::PermissionDenied { .. } => DomainErrorCode::PermissionDenied,
            DomainError::BudgetExceeded { .. } => DomainErrorCode::BudgetExceeded,
            DomainError::CapabilityUnavailable(_) => DomainErrorCode::CapabilityUnavailable,
            DomainError::ProviderError { .. } => DomainErrorCode::Provider,
            DomainError::ToolError { .. } => DomainErrorCode::Tool,
            DomainError::WorkflowError { .. } => DomainErrorCode::Workflow,
            DomainError::Serialization(_) => DomainErrorCode::Serialization,
            DomainError::Uuid(_) => DomainErrorCode::Uuid,
            DomainError::Io(_) => DomainErrorCode::Io,
            DomainError::ConcurrencyConflict { .. } => DomainErrorCode::InvariantViolation,
        }
    }

    pub fn retryability(&self) -> (r: Retryability)
        ensures
            r == retryability_of(self),
    {
        match self {
            DomainError::ProviderError { .. } | DomainError::ToolError { .. }
            | DomainError::WorkflowError { .. } => Retryability::Conditional,
            DomainError::Io(_) => Retryability::Safe,
            _ => Retryability::Never,
        }
    }

    /// The fixed message of the error kind; payloads never appear in it.
    pub fn message(&self) -> (r: String)
        ensures
            r@ == message_of(self),
    {
        let text: &str = match self {
            DomainError::InvalidStateTransition { .. } => "Invalid state transition",
            DomainError::NotFound(_) => "Entity not found",
            DomainError::Duplicate(_) => "Duplicate entity",
            DomainError::InvariantViolation(_) => "Invariant violation",
            DomainError::Validation(_) => "Validation failed",
            DomainError::PermissionDenied { .. } => "Permission denied",
            DomainError::BudgetExceeded { .. } => "Budget exceeded",
            DomainError::CapabilityUnavailable(_) => "Capability not available",
            DomainError::ProviderError { .. } => "Provider error",
            DomainError::ToolError { .. } => "Tool execution failed",
            DomainError::WorkflowError { .. } => "Workflow error",
            DomainError::Serialization(_) => "Serialization error",
            DomainError::Uuid(_) => "UUID error",
            DomainError::Io(_) => "IO error",
            DomainError::ConcurrencyConflict { .. } => "Concurrency conflict",
        };
        text.to_owned()
    }

    pub fn envelope(&self, correlation_id: Option<String>) -> (r: DomainErrorEnvelope)
        ensures
            r.code == code_of(self),
            r.retryability == retryability_of(self),
            r.message@ == message_of(self),
            r.correlation_id == correlation_id,
    {
        DomainErrorEnvelope {
            code: self.code(),
            retryability: self.retryability(),
            message: self.message(),
            correlation_id,
        }
    }
}

/// A validation error carrying a fixed explanation.
pub fn validation_error(reason: &str) -> (r: DomainError)
    ensures
        r matches DomainError::Validation(m) && m@ == reason@,
{
    DomainError::Validation(reason.to_owned())
}

/// A permission error carrying a fixed capability and reason.
pub fn permission_error(capability: &str, reason: &str) -> (r: DomainError)
    ensures
        r matches DomainError::PermissionDenied { capability: c, reason: m } && c@ == capability@
            && m@ == reason@,
{
    DomainError::PermissionDenied { capability: capability.to_owned(), reason: reason.to_owned() }
}

} // verus!
