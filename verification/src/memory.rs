//! Kinds, statuses and provenance sources of agent memories.
use vstd::prelude::*;

verus! {

/// Kind of memory.
#[derive(Debug, Clone, Copy, PartialEq, Eq, Structural)]
pub enum MemoryType {
    Working,
    ShortTerm,
    LongTerm,
    Episodic,
    Semantic,
    Procedural,
}

/// Status of a memory.
#[derive(Debug, Clone, Copy, PartialEq, Eq, Structural)]
pub enum MemoryStatus {
    Candidate,
    Approved,
    Rejected,
    Archived,
}

/// Where a memory came from.
#[derive(Debug, Clone, Copy, PartialEq, Eq, Structural)]
pub enum ProvenanceSource {
    UserInput,
    AgentOutput,
    ToolResult,
    SkillExecution,
    WorkflowNode,
    ExternalImport,
    Inferred,
}

/// A kind of memory in the memory taxonomy, by its code there.
#[derive(Debug, Clone, Copy, PartialEq, Eq, Hash, Structural)]
pub struct MemoryKind(pub u32);

} // verus!
