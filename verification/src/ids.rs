//! Opaque identifiers. Each is a 128-bit value, freshly drawn at random when
//! created with `new`.
use vstd::prelude::*;
use vstd::string::StrSliceExecFns;

verus! {

/// The shape of a random (version 4) UUID read as a big-endian 128-bit
/// value: its version nibble is 4 and its variant bits are `10`. No such
/// value is the nil id.
pub open spec fn is_v4(v: u128) -> bool {
    v & 0xF000_C000_0000_0000_0000u128 == 0x4000_8000_0000_0000_0000u128
}

/// Draws a fresh random 128-bit identifier value.
///
/// Calls `uuid::Uuid::new_v4` and reads it back with `Uuid::as_u128`.
/// uuid masks its random value and then sets the version to 4 and the
/// variant to RFC 4122, so the result has the version-4 shape; the other
/// bits depend on the random source and nothing is stated of them.
#[verifier::external_body]
pub(crate) fn random_id_value() -> (r: u128)
    ensures
        is_v4(r),
{
    uuid::Uuid::new_v4().as_u128()
}

/// Identifier of a project.
#[derive(Debug, Clone, Copy, PartialEq, Eq, Hash, Structural)]
pub struct ProjectId(pub u128);

/// Identifier of a run.
#[derive(Debug, Clone, Copy, PartialEq, Eq, Hash, Structural)]
pub struct RunId(pub u128);

/// Identifier of a trace.
#[derive(Debug, Clone, Copy, PartialEq, Eq, Hash, Structural)]
pub struct TraceId(pub u128);

/// Identifier of a task.
#[derive(Debug, Clone, Copy, PartialEq, Eq, Hash, Structural)]
pub struct TaskId(pub u128);

impl ProjectId {
    /// A fresh random identifier, of the version-4 shape.
    pub fn new() -> (r: Self)
        ensures
            is_v4(r.0),
    {
        ProjectId(random_id_value())
    }

    pub fn from_u128(value: u128) -> (r: Self)
        ensures
            r.0 == value,
    {
        ProjectId(value)
    }
}

impl RunId {
    /// A fresh random identifier, of the version-4 shape.
    pub fn new() -> (r: Self)
        ensures
            is_v4(r.0),
    {
        RunId(random_id_value())
    }

    pub fn from_u128(value: u128) -> (r: Self)
        ensures
            r.0 == value,
    {
        RunId(value)
    }
}

impl TraceId {
    /// A fresh random identifier, of the version-4 shape.
    pub fn new() -> (r: Self)
        ensures
            is_v4(r.0),
    {
        TraceId(random_id_value())
    }

    pub fn from_u128(value: u128) -> (r: Self)
        ensures
            r.0 == value,
    {
        TraceId(value)
    }
}

impl TaskId {
    /// A fresh random identifier, of the version-4 shape.
    pub fn new() -> (r: Self)
        ensures
            is_v4(r.0),
    {
        TaskId(random_id_value())
    }

    pub fn from_u128(value: u128) -> (r: Self)
        ensures
            r.0 == value,
    {
        TaskId(value)
    }
}

/// Identifier of an agent.
#[derive(Debug, Clone, Copy, PartialEq, Eq, Hash, Structural)]
pub struct AgentId(pub u128);

impl AgentId {
    /// A fresh random identifier, of the version-4 shape.
    pub fn new() -> (r: Self)
        ensures
            is_v4(r.0),
    {
        AgentId(random_id_value())
    }

    pub fn from_u128(value: u128) -> (r: Self)
        ensures
            r.0 == value,
    {
        AgentId(value)
    }
}

/// Identifier of a session.
#[derive(Debug, Clone, Copy, PartialEq, Eq, Hash, Structural)]
pub struct SessionId(pub u128);

impl SessionId {
    /// A fresh random identifier, of the version-4 shape.
    pub fn new() -> (r: Self)
        ensures
            is_v4(r.0),
    {
        SessionId(random_id_value())
    }

    pub fn from_u128(value: u128) -> (r: Self)
        ensures
            r.0 == value,
    {
        SessionId(value)
    }
}

/// Identifier of a workflow.
#[derive(Debug, Clone, Copy, PartialEq, Eq, Hash, Structural)]
pub struct WorkflowId(pub u128);

impl WorkflowId {
    /// A fresh random identifier, of the version-4 shape.
    pub fn new() -> (r: Self)
        ensures
            is_v4(r.0),
    {
        WorkflowId(random_id_value())
    }

    pub fn from_u128(value: u128) -> (r: Self)
        ensures
            r.0 == value,
    {
        WorkflowId(value)
    }
}

/// Identifier of a budget reservation.
#[derive(Debug, Clone, Copy, PartialEq, Eq, Hash, Structural)]
pub struct ReservationId(pub u128);

impl ReservationId {
    /// A fresh random identifier, of the version-4 shape.
    pub fn new() -> (r: Self)
        ensures
            is_v4(r.0),
    {
        ReservationId(random_id_value())
    }

    pub fn from_u128(value: u128) -> (r: Self)
        ensures
            r.0 == value,
    {
        ReservationId(value)
    }
}

/// The value of a UUID written as text, as the uuid crate reads it.
pub uninterp spec fn uuid_text_value(text: Seq<char>) -> Option<u128>;

/// Calls `uuid::Uuid::parse_str` and reads the result back with
/// `Uuid::as_u128`; `None` where the crate refuses the text.
#[verifier::external_body]
pub(crate) fn parse_uuid(text: &str) -> (r: Option<u128>)
    ensures
        r == uuid_text_value(text@),
{
    match uuid::Uuid::parse_str(text) {
        Ok(u) => Some(u.as_u128()),
        Err(_) => None,
    }
}

/// The identifier value of a text made of `prefix` and a UUID.
pub open spec fn prefixed_value(text: Seq<char>, prefix: Seq<char>) -> Option<u128> {
    if prefix.len() <= text.len() && text.take(prefix.len() as int) == prefix {
        uuid_text_value(text.skip(prefix.len() as int))
    } else {
        None
    }
}

/// Reads `prefix` followed by a UUID.
pub(crate) fn parse_prefixed(text: &str, prefix: &str) -> (r: Option<u128>)
    ensures
        r == prefixed_value(text@, prefix@),
{
    let n = text.unicode_len();
    let p = prefix.unicode_len();
    if p > n {
        return None;
    }
    let head = text.substring_char(0, p);
    if !crate::text::same_text(head, prefix) {
        return None;
    }
    let rest = text.substring_char(p, n);
    assert(rest@ =~= text@.skip(p as int));
    parse_uuid(rest)
}

/// Identifier of a skill.
#[derive(Debug, Clone, Copy, PartialEq, Eq, Hash, Structural)]
pub struct SkillId(pub u128);

impl ProjectId {
    /// Reads a project identifier written as `proj-` and a UUID.
    pub fn parse(text: &str) -> (r: Option<Self>)
        ensures
            r == (match prefixed_value(text@, "proj-"@) {
                Some(v) => Some(ProjectId(v)),
                None => None::<ProjectId>,
            }),
    {
        match parse_prefixed(text, "proj-") {
            Some(v) => Some(ProjectId(v)),
            None => None,
        }
    }
}

impl SkillId {
    /// Reads a skill identifier written as `skill-` and a UUID.
    pub fn parse(text: &str) -> (r: Option<Self>)
        ensures
            r == (match prefixed_value(text@, "skill-"@) {
                Some(v) => Some(SkillId(v)),
                None => None::<SkillId>,
            }),
    {
        match parse_prefixed(text, "skill-") {
            Some(v) => Some(SkillId(v)),
            None => None,
        }
    }
}

impl AgentId {
    /// Reads an agent identifier written as `agent-` and a UUID.
    pub fn parse(text: &str) -> (r: Option<Self>)
        ensures
            r == (match prefixed_value(text@, "agent-"@) {
                Some(v) => Some(AgentId(v)),
                None => None::<AgentId>,
            }),
    {
        match parse_prefixed(text, "agent-") {
            Some(v) => Some(AgentId(v)),
            None => None,
        }
    }
}

impl WorkflowId {
    /// Reads a workflow identifier written as `wf-` and a UUID.
    pub fn parse(text: &str) -> (r: Option<Self>)
        ensures
            r == (match prefixed_value(text@, "wf-"@) {
                Some(v) => Some(WorkflowId(v)),
                None => None::<WorkflowId>,
            }),
    {
        match parse_prefixed(text, "wf-") {
            Some(v) => Some(WorkflowId(v)),
            None => None,
        }
    }
}

/// Identifier of a memory.
#[derive(Debug, Clone, Copy, PartialEq, Eq, Hash, Structural)]
pub struct MemoryId(pub u128);

impl MemoryId {
    pub fn from_u128(value: u128) -> (r: Self)
        ensures
            r.0 == value,
    {
        MemoryId(value)
    }

    /// Reads a memory identifier written as `mem-` and a UUID.
    pub fn parse(text: &str) -> (r: Option<Self>)
        ensures
            r == (match prefixed_value(text@, "mem-"@) {
                Some(v) => Some(MemoryId(v)),
                None => None::<MemoryId>,
            }),
    {
        match parse_prefixed(text, "mem-") {
            Some(v) => Some(MemoryId(v)),
            None => None,
        }
    }
}

impl TraceId {
    /// Reads a trace identifier written as `trace-` and a UUID.
    pub fn parse(text: &str) -> (r: Option<Self>)
        ensures
            r == (match prefixed_value(text@, "trace-"@) {
                Some(v) => Some(TraceId(v)),
                None => None::<TraceId>,
            }),
    {
        match parse_prefixed(text, "trace-") {
            Some(v) => Some(TraceId(v)),
            None => None,
        }
    }
}

} // verus!
