//! The memory bridge's boundary rules: a mutation needs an explicit
//! confirmation and the write capability before any service runs, listings
//! are bounded, and filters match the memories' wire names.
use crate::error::{code_of, DomainError, DomainErrorCode};
use crate::ids::{prefixed_value, MemoryId, ProjectId};
use crate::memory::{MemoryStatus, MemoryType};
use crate::skill_bridge::{code_name, code_text};
use crate::text::same_text;
use vstd::prelude::*;
use vstd::string::StringExecFns;

verus! {

pub const MEMORY_CAPABILITY: &'static str = "memory.write";

pub const MEMORY_CONFIRMATION_PHRASE: &'static str = "confirm memory mutation";

/// Most memories a listing returns.
pub const MAX_MEMORY_PAGE: usize = 100;

#[derive(Debug, Clone)]
pub struct ListMemoriesInput {
    pub project_id: String,
    pub status: Option<String>,
    pub memory_type: Option<String>,
    pub limit: Option<usize>,
}

#[derive(Debug, Clone, Copy, PartialEq, Eq, Structural)]
pub enum MemoryBridgeError {
    InvalidInput,
    ConfirmationRequired,
    MutationRejected { code: DomainErrorCode },
}

pub open spec fn memory_bridge_message(e: MemoryBridgeError) -> Seq<char> {
    match e {
        MemoryBridgeError::InvalidInput => "invalid memory mutation input"@,
        MemoryBridgeError::ConfirmationRequired => "confirm memory mutation"@,
        MemoryBridgeError::MutationRejected { code } => "memory mutation rejected: "@ + code_name(code),
    }
}

impl MemoryBridgeError {
    /// The human-readable description of the error.
    pub fn message(&self) -> (r: String)
        ensures
            r@ == memory_bridge_message(*self),
    {
        match self {
            MemoryBridgeError::InvalidInput => "invalid memory mutation input".to_string(),
            MemoryBridgeError::ConfirmationRequired => MEMORY_CONFIRMATION_PHRASE.to_string(),
            MemoryBridgeError::MutationRejected { code } => {
                let mut s = "memory mutation rejected: ".to_string();
                s.append(code_text(*code));
                s
            },
        }
    }
}

impl From<DomainError> for MemoryBridgeError {
    fn from(error: DomainError) -> (r: Self) {
        MemoryBridgeError::MutationRejected { code: error.code() }
    }
}

impl vstd::std_specs::convert::FromSpecImpl<DomainError> for MemoryBridgeError {
    open spec fn obeys_from_spec() -> bool {
        true
    }

    open spec fn from_spec(error: DomainError) -> Self {
        MemoryBridgeError::MutationRejected { code: code_of(&error) }
    }
}

/// Reads a project identifier; an unreadable one is invalid input.
pub fn parse_project_id(value: &str) -> (r: Result<ProjectId, MemoryBridgeError>)
    ensures
        r == (match prefixed_value(value@, "proj-"@) {
            Some(v) => Ok(ProjectId(v)),
            None => Err(MemoryBridgeError::InvalidInput),
        }),
{
    match ProjectId::parse(value) {
        Some(id) => Ok(id),
        None => Err(MemoryBridgeError::InvalidInput),
    }
}

/// Reads a memory identifier; an unreadable one is invalid input.
pub fn parse_memory_id(value: &str) -> (r: Result<MemoryId, MemoryBridgeError>)
    ensures
        r == (match prefixed_value(value@, "mem-"@) {
            Some(v) => Ok(MemoryId(v)),
            None => Err(MemoryBridgeError::InvalidInput),
        }),
{
    match MemoryId::parse(value) {
        Some(id) => Ok(id),
        None => Err(MemoryBridgeError::InvalidInput),
    }
}

/// A mutation must be confirmed, then presented with the write capability.
pub fn check_mutation(confirmed: bool, capability: &str) -> (r: Result<(), MemoryBridgeError>)
    ensures
        !confirmed ==> r == Err::<(), MemoryBridgeError>(MemoryBridgeError::ConfirmationRequired),
        confirmed && capability@ != MEMORY_CAPABILITY@ ==> r == Err::<(), MemoryBridgeError>(
            MemoryBridgeError::MutationRejected { code: DomainErrorCode::PermissionDenied },
        ),
        confirmed && capability@ == MEMORY_CAPABILITY@ ==> r is Ok,
{
    if !confirmed {
        return Err(MemoryBridgeError::ConfirmationRequired);
    }
    if !same_text(capability, MEMORY_CAPABILITY) {
        return Err(MemoryBridgeError::MutationRejected { code: DomainErrorCode::PermissionDenied });
    }
    Ok(())
}

/// How many memories a listing asks for: all it may by default, at least
/// one and at most the page size.
pub fn memory_page_limit(limit: Option<usize>) -> (r: usize)
    ensures
        r == (match limit {
            None => MAX_MEMORY_PAGE,
            Some(l) => if l < 1 {
                1
            } else if l > MAX_MEMORY_PAGE {
                MAX_MEMORY_PAGE
            } else {
                l
            },
        }),
{
    match limit {
        None => MAX_MEMORY_PAGE,
        Some(l) => if l < 1 {
            1
        } else if l > MAX_MEMORY_PAGE {
            MAX_MEMORY_PAGE
        } else {
            l
        },
    }
}

/// The wire name of a memory status.
pub open spec fn status_name(s: MemoryStatus) -> Seq<char> {
    match s {
        MemoryStatus::Candidate => "candidate"@,
        MemoryStatus::Approved => "approved"@,
        MemoryStatus::Rejected => "rejected"@,
        MemoryStatus::Archived => "archived"@,
    }
}

/// The wire name of a memory type.
pub open spec fn memory_type_name(t: MemoryType) -> Seq<char> {
    match t {
        MemoryType::Working => "working"@,
        MemoryType::ShortTerm => "short_term"@,
        MemoryType::LongTerm => "long_term"@,
        MemoryType::Episodic => "episodic"@,
        MemoryType::Semantic => "semantic"@,
        MemoryType::Procedural => "procedural"@,
    }
}

fn status_text(s: MemoryStatus) -> (r: &'static str)
    ensures
        r@ == status_name(s),
{
    match s {
        MemoryStatus::Candidate => "candidate",
        MemoryStatus::Approved => "approved",
        MemoryStatus::Rejected => "rejected",
        MemoryStatus::Archived => "archived",
    }
}

fn type_text(t: MemoryType) -> (r: &'static str)
    ensures
        r@ == memory_type_name(t),
{
    match t {
        MemoryType::Working => "working",
        MemoryType::ShortTerm => "short_term",
        MemoryType::LongTerm => "long_term",
        MemoryType::Episodic => "episodic",
        MemoryType::Semantic => "semantic",
        MemoryType::Procedural => "procedural",
    }
}

/// A memory passes a listing's filters when each given filter names its
/// status or type.
pub fn matches_filter(status: MemoryStatus, memory_type: MemoryType, input: &ListMemoriesInput) -> (r:
    bool)
    ensures
        r == ((match input.status {
            None => true,
            Some(s) => s@ == status_name(status),
        }) && (match input.memory_type {
            None => true,
            Some(t) => t@ == memory_type_name(memory_type),
        })),
{
    let status_matches = match &input.status {
        None => true,
        Some(s) => same_text(s.as_str(), status_text(status)),
    };
    let type_matches = match &input.memory_type {
        None => true,
        Some(t) => same_text(t.as_str(), type_text(memory_type)),
    };
    status_matches && type_matches
}

} // verus!
